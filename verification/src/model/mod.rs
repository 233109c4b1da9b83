//! Domain values shared by storage, reporting and the viewer.

pub mod metric;
pub mod run;
