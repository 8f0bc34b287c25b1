[package]
name = "daemon_session"
version = "0.1.0"
edition = "2021"
publish = false

[dependencies]
bollard = { version = "=0.21.1", features = ["ssl"] }
futures = "=0.3.34"
serde_json = "=1.0.151"
tokio = { version = "=1.53.2", features = ["rt-multi-thread", "macros", "io-util", "sync", "time"] }
