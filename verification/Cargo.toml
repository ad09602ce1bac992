[package]
name = "flatten_files"
version = "0.1.0"
edition = "2021"
publish = false

[dependencies]
chrono = "0.4"
clipboard = "0.5"
rayon = "1"
serde = { version = "1", features = ["derive"] }
serde_json = "1"
walkdir = "2"
