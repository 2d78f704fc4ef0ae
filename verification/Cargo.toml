[package]
name = "repomd"
version = "0.1.0"
edition = "2021"
publish = false

[dependencies]
anyhow = "1"
regex = "1"
serde = { version = "1", features = ["derive"] }
serde_json = "1"
tiktoken-rs = "*"
mime_guess = "2"
ignore = "0.4"
tempfile = "3"
clap = { version = "4", features = ["derive"] }
comfy-table = "7"
console = "*"
dialoguer = "*"
indicatif = "*"
human_bytes = "*"
arboard = { version = "3", default-features = false }
reqwest = { version = "*", default-features = false, features = ["json"] }
tokio = { version = "1", features = ["full"] }
axum = "*"
tower-http = { version = "*", features = ["cors"] }
tracing = "0.1"
tracing-subscriber = "0.3"
uuid = { version = "1", features = ["v4"] }
