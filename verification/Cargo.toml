[package]
name = "upgradable_channel"
version = "0.1.0"
edition = "2021"
publish = false

[dependencies]
anyhow = "=1.0.104"
connection-utils = "=0.3.1"
cs-utils = { version = "=0.21.1", features = ["async", "traits", "test"] }
futures = "=0.3.34"
serde = { version = "=1.0.229", features = ["derive"] }
tokio = { version = "=1.54.1", features = ["full"] }
tokio-util = { version = "=0.6.10", features = ["codec"] }

[dev-dependencies]
bytes = "=1.12.1"
