[package]
name = "undermoon"
version = "0.1.0"
edition = "2021"
publish = false

[dependencies]
caseless = "*"
reqwest = { version = "*", default-features = false, features = ["blocking", "json"] }
serde = { version = "*", features = ["derive"] }
serde_json = "*"
