[package]
name = "process_ops"
version = "0.1.0"
edition = "2021"
publish = false

[dependencies]
tokio = { version = "=1.53.2", features = ["fs", "io-util", "net", "process", "rt", "time"] }
futures = "=0.3.34"
serde = { version = "=1.0.229", features = ["derive"] }
serde_json = "=1.0.151"
nix = { version = "=0.31.3", features = ["signal"] }
