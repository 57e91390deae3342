[package]
name = "hackerlog"
version = "0.1.0"
edition = "2021"
publish = false

[dependencies]
chrono = "*"
termion = "*"
serde = { version = "*", features = ["derive"] }
serde_json = "*"
