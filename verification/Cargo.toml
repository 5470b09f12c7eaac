[package]
name = "alamo_schedule"
version = "0.1.0"
edition = "2021"
publish = false

[dependencies]
anyhow = "*"
attohttpc = "*"
chrono = "*"
chrono-tz = "*"
serde = { version = "*", features = ["derive"] }
serde_json = "*"
