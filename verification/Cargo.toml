[package]
name = "market_collector"
version = "0.1.0"
edition = "2021"
publish = false

[dependencies]
serde_json = "*"
serde = { version = "*", features = ["derive"] }
rand = "*"
flate2 = "*"
chrono = "*"
tokio = { version = "*", features = ["full"] }
tokio-tungstenite = { version = "*", features = ["rustls-tls-webpki-roots"] }
futures-util = "*"
anyhow = "*"
reqwest = { version = "*", default-features = false, features = ["rustls-tls", "json"] }
rustls = "*"
once_cell = "*"
