[package]
name = "discord_announcer"
version = "0.1.0"
edition = "2021"
publish = false

[dependencies]
rand = "0.9"
regex = "1"
reqwest = { version = "0.12", default-features = false, features = ["json", "rustls-tls"] }
serde = { version = "1", features = ["derive"] }
serenity = "0.12"
tokio = { version = "1", features = ["macros", "rt-multi-thread", "signal"] }
