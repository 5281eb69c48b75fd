[package]
name = "inserter_control"
version = "0.1.0"
edition = "2021"
publish = false

[dependencies]
rand = "0.8"
roots = "*"
tokio = { version = "1", default-features = false, features = ["rt", "sync", "time"] }
