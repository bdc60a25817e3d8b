[package]
name = "storyos-adapter-postgres"
version = "0.1.0"
edition = "2021"
publish = false

[dependencies]
serde_json = "1"
sha2 = "0.10"
tokio = { version = "1", features = ["rt", "macros"] }
tokio-postgres = "0.7"
uuid = { version = "1", features = ["v7"] }
