[package]
name = "martlet_proxy"
version = "0.1.0"
edition = "2021"
publish = false

[dependencies]
sqlparser = "0.9"
async-trait = "0.1"
bytes = "1"
tokio = { version = "1", features = ["net", "io-util"] }
tokio-util = { version = "0.6", features = ["codec"] }
