[package]
name = "matrirc"
version = "0.1.0"
edition = "2021"
publish = false

[dependencies]
anyhow = "1"
async-trait = "0.1"
futures = "0.3"
irc = { version = "=1.1.0", default-features = false }
log = "0.4"
matrix-sdk = { version = "=0.7.1", default-features = false, features = ["rustls-tls"] }
regex = "=1.13.1"
serde_json = "1"
tokio = { version = "1", features = ["full"] }
tokio-util = { version = "=0.7.20", features = ["codec"] }
