[package]
name = "music_bot"
version = "0.1.0"
edition = "2021"
publish = false

[dependencies]
anyhow = "=1.0.104"
dotenv = "=0.15.0"
futures = "=0.3.34"
lavalink-rs = { version = "=0.13.0", features = ["serenity", "songbird"] }
poise = "=0.6.2"
rand = "=0.8.8"
reqwest = { version = "=0.11.27", default-features = false, features = ["json", "rustls-tls"] }
serde = { version = "=1.0.229", features = ["derive"] }
serde_json = "1"
serenity = "=0.12.5"
songbird = { version = "=0.4.6", default-features = false, features = ["gateway", "serenity", "rustls"] }
strum = { version = "=0.26.3", features = ["derive"] }
tokio = { version = "=1.54.1", features = ["full"] }
tracing = "=0.1.44"
tracing-subscriber = "=0.3.23"
