//! Aligned metric queries over the project catalog or Parquet files.

pub mod alignment;
