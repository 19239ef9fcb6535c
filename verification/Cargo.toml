[package]
name = "ssh-rev"
version = "0.1.0"
edition = "2021"
publish = false

[dependencies]
anyhow = "1"
bytes = "1"
clap = { version = "4", features = ["derive", "env"] }
env_logger = "0.10"
futures = "0.3"
log = "0.4"
serde = { version = "1", features = ["derive"] }
serde_json = "1"
tokio = { version = "1", features = ["io-std", "io-util", "macros", "net", "process", "rt", "sync"] }
tokio-util = { version = "0.7", features = ["codec"] }
