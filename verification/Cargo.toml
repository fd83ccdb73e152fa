[package]
name = "project_sync"
version = "0.1.0"
edition = "2021"
publish = false

[dependencies]
shellexpand = "*"
chrono = "0.4"
clap = { version = "4", features = ["derive"] }
colored = "*"
futures = "0.3"
notify = "*"
serde = { version = "1", features = ["derive"] }
tokio = { version = "1", features = ["full"] }
tokio-util = "0.7"
toml = "*"
