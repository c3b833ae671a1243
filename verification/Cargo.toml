[package]
name = "skin_injection"
version = "0.1.0"
edition = "2021"
publish = false

[dependencies]
zip = { version = "=9.0.5", default-features = false, features = ["deflate"] }
serde = { version = "1", features = ["derive"] }
serde_json = "=1.0.154"
walkdir = "=2.5.0"
chrono = "=0.4.45"
memmap2 = "=0.9.12"
once_cell = "=1.21.4"
