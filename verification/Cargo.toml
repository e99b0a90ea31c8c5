[package]
name = "serde_millis"
version = "0.1.0"
edition = "2021"
publish = false

[dependencies]
serde = "1"
time = { version = "0.2", default-features = false, features = ["std"] }

[dev-dependencies]
serde_json = "1"
