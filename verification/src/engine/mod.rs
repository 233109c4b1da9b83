//! Native storage rules: run rows, lifecycle, catalog bootstrap and reporting.

pub mod bootstrap;
pub mod client;
pub mod comparison;
pub mod error;
pub mod read_plan;
pub mod reporting;
pub mod time;
pub mod write_rows;
