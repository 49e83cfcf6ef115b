[package]
name = "rustsn"
version = "0.1.0"
edition = "2021"
publish = false

[dependencies]
bollard = "0.17"
futures = "0.3"
futures-util = "0.3"
regex = "1"
reqwest = { version = "0.12", default-features = false, features = ["blocking", "json"] }
serde = { version = "1", features = ["derive"] }
serde_json = "1"
tokio = { version = "1", features = ["rt-multi-thread"] }
users = "0.11"
