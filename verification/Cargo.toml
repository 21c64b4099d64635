[package]
name = "spider_client"
version = "0.1.0"
edition = "2021"
publish = false

[dependencies]
serde_json = "=1.0.151"
serde = { version = "=1.0.229", features = ["derive"] }
reqwest = { version = "=0.13.5", default-features = false, features = ["json", "query", "stream"] }
tokio = { version = "=1.53.2", features = ["macros", "rt-multi-thread", "time"] }
tokio-stream = "=0.1.19"
backon = "=1.6.0"
clap = { version = "=4.6.7", features = ["derive"] }
keyring = "=4.2.0"
bytes = "=1.12.1"
