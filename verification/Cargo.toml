[package]
name = "lyric_finder"
version = "0.1.0"
edition = "2021"
publish = false

[dependencies]
reqwest = { version = "*", default-features = false }
serde_json = "*"
log = "*"

[dev-dependencies]
tokio = { version = "*", features = ["rt"] }
