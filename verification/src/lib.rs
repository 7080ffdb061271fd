//! Feature-flag evaluation and event publishing, with their contracts proved by Verus.

pub mod config;
pub mod error;
pub mod events;
pub mod flags;
pub mod hex;
pub mod json;
pub mod metrics;
pub mod telemetry;
