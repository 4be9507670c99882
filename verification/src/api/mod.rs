pub mod error;
pub mod metrics;
pub mod openapi;
pub mod v1;
