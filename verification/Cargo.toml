[package]
name = "mux"
version = "0.1.0"
edition = "2021"
publish = false

[dependencies]
tokio = { version = "1", features = ["rt-multi-thread", "sync", "io-util", "time", "macros"] }
tokio-util = { version = "0.7", features = ["codec"] }
futures-util = "0.3"
parking_lot = "0.12"
thiserror = "*"
dotenvy = "0.15"
validator = "*"
