[package]
name = "ai_os"
version = "0.1.0"
edition = "2021"
publish = false

[dependencies]
hex = "0.4"
base64 = "0.22"
pulldown-cmark = "0.12"
serde = { version = "1", features = ["derive"] }
serde_json = "1"
toml = "0.8"
chrono = { version = "0.4", default-features = false, features = ["clock", "std"] }
uuid = { version = "1", features = ["v4", "serde"] }
dirs-next = "2"
shellexpand = "3"
anyhow = "1"
rusqlite = "0.32"
reqwest = { version = "0.12", default-features = false, features = ["json"] }
tokio = { version = "1", features = ["rt-multi-thread", "net", "io-util", "macros", "sync"] }
jsonwebtoken = { version = "9", default-features = false }
tracing = "0.1"
tracing-subscriber = { version = "0.3", default-features = false, features = ["fmt", "std"] }
image = { version = "0.25", default-features = false, features = ["png"] }
egui = "0.29"
