[package]
name = "tor_proxy"
version = "0.1.0"
edition = "2021"
publish = false

[dependencies]
anyhow = "=1.0.104"
async-trait = "*"
base64 = "=0.23.1"
futures = "=0.3.34"
tokio = { version = "=1.53.2", features = ["rt", "rt-multi-thread", "net", "io-util", "time"] }
tor-rtcompat = "=0.47.0"
