[package]
name = "rustodon_worker"
version = "0.1.0"
edition = "2021"
publish = false

[dependencies]
chrono = "0.4"
sha2 = "0.10"
url = "2"
serde_json = "1"
http = "1"
