[package]
name = "file_scanner"
version = "0.1.0"
edition = "2021"
publish = false

[dependencies]
chrono = "*"
rusqlite = { version = "*", features = ["bundled"] }
walkdir = "*"
rayon = "*"
pyo3 = "*"
