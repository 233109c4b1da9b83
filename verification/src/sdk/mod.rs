//! Validation and error classification behind the Python SDK.

pub mod config;
pub mod errors;
