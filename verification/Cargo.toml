[package]
name = "cron_notifier"
version = "0.1.0"
edition = "2021"
publish = false

[dependencies]
chrono = { version = "0.4", default-features = false, features = ["clock", "std"] }
cron = "0.12"
notify-rust = "4"
serde = "1"
serde_derive = "1"
toml = "0.8"
