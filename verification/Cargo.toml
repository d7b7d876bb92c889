[package]
name = "konnect"
version = "0.1.0"
edition = "2021"
publish = false

[dependencies]
dirs = "=6.0.0"
portable-pty = "=0.9.0"
russh = { version = "=0.56.0", default-features = false, features = ["aws-lc-rs", "flate2"] }
russh-sftp = "=2.4.0"
serde = { version = "=1.0.229", features = ["derive"] }
tokio = { version = "=1.54.1", features = ["full"] }
toml = "=0.8.23"
uuid = { version = "=1.29.0", features = ["v4"] }
