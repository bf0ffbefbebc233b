[package]
name = "weather_core"
version = "0.1.0"
edition = "2021"
publish = false

[dependencies]
serde_json = "*"
chrono = "*"
chrono-tz = "*"
zellij-tile = "*"
