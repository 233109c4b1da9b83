[package]
name = "pulseon"
version = "0.1.0"
edition = "2021"
publish = false

[dependencies]
chrono = { version = "*", default-features = false, features = ["std", "clock"] }
uuid = { version = "*", features = ["v4"] }
duckdb = "*"
pyo3 = "*"
thiserror = "*"
