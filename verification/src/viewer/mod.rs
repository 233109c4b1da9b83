//! Renderer-independent state and read planning for the desktop curve viewer.

pub mod state;
pub mod model;
pub mod palette;
pub mod query;
pub mod source;
pub mod worker;
