pub mod confirm;
pub mod dtos;
pub mod publish;
pub mod routing;
