//! The decision logic of an example chain indexer and its HTTP API:
//! how errors are classified and answered, how the OpenAPI document and
//! the metric groups are laid out, how parsed events are dispatched, and
//! the settings handed to the message broker.

pub mod api;
pub mod text;
pub mod sqlx_client;
pub mod indexer;
pub mod settings;
