//! What the recording server sends and accepts.

pub mod api;
pub mod model;
