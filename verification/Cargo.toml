[package]
name = "acme-rs"
version = "0.1.0"
edition = "2021"
publish = false

[dependencies]
base64 = "0.13"
clap = { version = "3", features = ["derive"] }
flexi_logger = "0.17"
log = "0.4"
openssl = "0.10"
reqwest = { version = "0.11", features = ["blocking", "json"] }
rouille = "3"
serde = { version = "1", features = ["derive"] }
serde_json = "1"
thiserror = "1"
