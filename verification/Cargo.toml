[package]
name = "dispatcher"
version = "0.1.0"
edition = "2021"
publish = false

[dependencies]
anyhow = "1"
uuid = "1"
url = "2"
percent-encoding = "2"
serde = { version = "1", features = ["derive"] }
serde_json = "1"
chrono = "0.4"
hashring = "0.3"
rand = "0.8"
vec1 = "1"
prometheus = { version = "0.13", default-features = false }
