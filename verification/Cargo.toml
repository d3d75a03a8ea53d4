[package]
name = "weibo_actions"
version = "0.1.0"
edition = "2021"
publish = false

[dependencies]
reqwest = { version = "=0.12.28", features = ["json"] }
serde_json = "=1.0.154"
