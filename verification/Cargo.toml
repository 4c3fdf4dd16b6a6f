[package]
name = "tickerboard"
version = "0.1.0"
edition = "2021"
publish = false

[dependencies]
cli-candlestick-chart = "*"
crossterm = "0.27"
futures = "0.3"
ratatui = "0.26"
reqwest = { version = "0.12", default-features = false, features = ["json", "rustls-tls"] }
serde = { version = "1", features = ["derive"] }
serde_json = "1"
tokio = { version = "1", features = ["full"] }
tokio-tungstenite = { version = "0.21", features = ["rustls-tls-webpki-roots"] }
