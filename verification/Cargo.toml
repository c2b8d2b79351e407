[package]
name = "veilid_news"
version = "0.1.0"
edition = "2021"
publish = false

[dependencies]
anyhow = "1"
async-std = "1"
chrono = "0.4"
clap = { version = "4", features = ["derive"] }
rand = "0.8"
reqwest = "0.11"
rss = "2"
serde = { version = "1", features = ["derive"] }
serde_json = "1"
tokio = { version = "1", features = ["full"] }
tracing = "0.1"
tracing-subscriber = "0.3"
