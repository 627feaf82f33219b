[package]
name = "hoyolab_checkin"
version = "0.1.0"
edition = "2021"
publish = false

[dependencies]
reqwest = { version = "=0.13.5", default-features = false, features = ["blocking", "json", "query"] }
serde = { version = "=1.0.229", features = ["derive"] }
serde_json = "=1.0.151"
