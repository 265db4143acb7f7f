[package]
name = "incipit"
version = "0.1.0"
edition = "2021"
publish = false

[dependencies]
axum = "0.7"
clap = { version = "4", features = ["derive"] }
color-eyre = "0.6"
figment = { version = "0.10", features = ["toml", "json", "env"] }
futures = "0.3"
hyper = { version = "1", features = ["client", "http1"] }
hyper-tungstenite = "0.15"
hyper-util = { version = "0.1", features = ["tokio"] }
notify = "6"
serde = { version = "1", features = ["derive"] }
thiserror = "1"
tokio = { version = "1", features = ["full"] }
tokio-tungstenite = "0.24"
toml = "0.8"
tracing = "0.1"
tracing-subscriber = { version = "0.3", features = ["env-filter"] }
tungstenite = "0.24"
