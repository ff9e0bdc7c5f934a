[package]
name = "telegram_client"
version = "0.1.0"
edition = "2021"
publish = false

[dependencies]
rtdlib = "=1.4.6"
serde_json = "1"
