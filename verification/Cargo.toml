[package]
name = "outreach_bot"
version = "0.1.0"
edition = "2021"
publish = false

[dependencies]
askama = "*"
chrono = "0.4"
dotenvy = "0.15"
lettre = "*"
redis = "*"
regex = "1"
reqwest = "*"
scraper = "*"
serde = { version = "1", features = ["derive"] }
serde_json = "1"
thiserror = "*"
tokio = { version = "1", features = ["macros", "rt-multi-thread", "time"] }
