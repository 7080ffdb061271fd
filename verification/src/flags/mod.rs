pub mod dtos;
pub mod handlers;
pub mod laws;
pub mod model;
