[package]
name = "sftp_bridge"
version = "0.1.0"
edition = "2021"
publish = false

[dependencies]
ssh2 = "*"
tokio = { version = "1", features = ["io-util"] }
