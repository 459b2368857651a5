[package]
name = "fleet_deploy"
version = "0.1.0"
edition = "2021"
publish = false

[dependencies]
anyhow = "1"
clap = { version = "4", features = ["derive"] }
colored = "*"
futures = "0.3"
serde = { version = "1", features = ["derive"] }
serde_yaml_ng = "*"
tokio = { version = "1", features = ["io-util", "macros", "process", "rt", "time"] }
