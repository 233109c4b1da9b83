//! Verified core of the PulseOn local training-metrics tracker.

pub mod chart;
pub mod data;
pub mod engine;
pub mod model;
pub mod text;
pub mod viewer;
pub mod sdk;
pub mod storage;
