[package]
name = "btc-price-alert"
version = "0.1.0"
edition = "2021"
publish = false

[dependencies]
crossterm = "*"
directories = "*"
futures-util = "0.3"
rodio = "*"
serde = { version = "1", features = ["derive"] }
serde_json = "1"
tokio = { version = "1", features = ["full"] }
tokio-tungstenite = { version = "*", features = ["native-tls"] }
