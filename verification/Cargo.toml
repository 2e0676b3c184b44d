[package]
name = "nixary"
version = "0.1.0"
edition = "2021"
publish = false

[dependencies]
iced = { version = "0.12", default-features = false }
rfd = "0.14"
tokio = { version = "1", features = ["fs"] }
