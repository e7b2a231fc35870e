[package]
name = "voicetyping"
version = "0.1.0"
edition = "2021"
publish = false

[dependencies]
serde = { version = "1", features = ["derive"] }
serde_json = "1"
toml = "0.8"
anyhow = "1"
reqwest = { version = "0.12", default-features = false, features = ["multipart", "json"] }
tokio = { version = "1", features = ["rt-multi-thread"] }
hound = "3"
rdev = "0.5"
