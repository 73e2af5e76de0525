[package]
name = "trackfolio"
version = "0.1.0"
edition = "2021"
publish = false

[dependencies]
chrono = "0.4"
rust_decimal = { version = "1", features = ["serde-with-str"] }
serde = { version = "1", features = ["derive"] }
serde_json = "1"
ulid = { version = "1", features = ["serde"] }
ureq = "2"
crossterm = "0.28"
ratatui = "0.29"
dirs = "6"
