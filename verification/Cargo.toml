[package]
name = "arret_core"
version = "0.1.0"
edition = "2021"
publish = false

[dependencies]
redis = { version = "0.23", features = ["aio", "tokio-comp"] }
async-trait = "0.1"
tokio = { version = "1", features = ["rt", "time"] }
