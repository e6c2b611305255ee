[package]
name = "exarrow_rs"
version = "2.0.0"
edition = "2021"
publish = false

[dependencies]
arrow = { version = "*", default-features = false }
tokio = { version = "1", features = ["rt", "sync", "time", "fs", "io-util"] }
