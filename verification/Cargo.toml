[package]
name = "rest_client"
version = "0.1.0"
edition = "2021"
publish = false

[dependencies]
futures = "0.1"
hyper = { version = "0.11", default-features = false }
serde = "1"
serde_derive = "1"
serde_json = "1"
tokio-core = "0.1"
url = "1.7"
