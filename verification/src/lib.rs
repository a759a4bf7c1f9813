//! Decision engine for submitting transcode requests to a recording server.
//!
//! The library decides which recordings are eligible for a new encode request
//! and which encode profile each of them gets, describes the requests that the
//! recording server understands, and sequences a run. Network and file access
//! are left to the caller.

pub mod config;
pub mod decimal;
pub mod encode;
pub mod epgstation_api;
pub mod listing;
pub mod pipeline;
