//! Commands the application layer issues against the context.

pub mod render;
pub mod time;
