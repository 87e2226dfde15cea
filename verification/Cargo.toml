[package]
name = "serde_url_params"
version = "0.2.1"
edition = "2021"
publish = false

[dependencies]
serde = { version = "1.0", features = ["derive"] }
url = "2"
