[package]
name = "github_api"
version = "0.1.0"
edition = "2021"
publish = false

[dependencies]
base64 = "0.13"
failure = "0.1"
reqwest = { version = "0.11", features = ["blocking", "json"] }
serde = { version = "1", features = ["derive"] }
