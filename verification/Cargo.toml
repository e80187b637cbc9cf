[package]
name = "healthcheck"
version = "0.1.0"
edition = "2021"
publish = false

[dependencies]
chrono = "*"
json5 = "*"
serde = { version = "*", features = ["derive"] }
reqwest = { version = "*", default-features = false, features = ["blocking"] }
notify-rust = "*"

[dev-dependencies]
serde_json = "*"
