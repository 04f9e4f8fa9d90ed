[package]
name = "fishworker"
version = "0.1.0"
edition = "2021"
publish = false

[dependencies]
chrono = "0.4"
uuid = { version = "1", features = ["v4"] }
serde = { version = "1", features = ["derive"] }
serde_json = "1"
libsql = "*"
tokio = { version = "1", features = ["full"] }
reqwest = { version = "0.12", features = ["json"] }
openssl-probe = "0.1"
