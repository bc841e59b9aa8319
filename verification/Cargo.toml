[package]
name = "guild_tags"
version = "0.1.0"
edition = "2021"
publish = false

[dependencies]
strsim = "0.11"
rayon = "1"
sled = "0.34"
chrono = "0.4"
serde = { version = "1", features = ["derive"] }
serde_json = "1"
tokio = { version = "1", features = ["full"] }
axum = "0.8"
serenity = "0.12"
poise = "0.6"
rusqlite = { version = "*", features = ["bundled"] }
dotenv = "0.15"
tracing = "0.1"
tracing-subscriber = "0.3"
