[package]
name = "alfred"
version = "0.1.0"
edition = "2021"
publish = false

[dependencies]
async-trait = "0.1"
audiopus = "*"
axum = "*"
base64 = "0.22"
chrono = "0.4"
chrono-tz = "*"
cpal = "*"
dotenvy = "0.15"
hound = "3"
regex = "1"
reqwest = { version = "0.12", default-features = false, features = ["json", "blocking", "rustls-tls"] }
rodio = "*"
rusqlite = { version = "*", features = ["bundled"] }
serde = { version = "1", features = ["derive"] }
serde_json = "1"
symphonia = { version = "0.5", features = ["mkv"] }
tokio = { version = "1", features = ["full"] }
toml = "*"
tower-http = { version = "*", features = ["cors"] }
uuid = { version = "1", features = ["v4"] }
whisper-rs = "*"
