[package]
name = "battery_brightness"
version = "0.1.0"
edition = "2021"
publish = false

[dependencies]
anyhow = "*"
tokio = { version = "*", default-features = false, features = ["sync", "time", "rt-multi-thread", "macros"] }
