[package]
name = "r6stats_client"
version = "0.1.0"
edition = "2021"
publish = false

[dependencies]
reqwest = { version = "*", default-features = false, features = ["rustls-tls"] }
url = "*"
serde = { version = "*", features = ["derive"] }
serde_json = "*"
serde_repr = "*"
chrono = { version = "*", features = ["serde"] }
tokio = { version = "*", features = ["rt", "time"] }
