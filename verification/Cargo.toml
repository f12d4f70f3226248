[package]
name = "link_auth"
version = "0.1.0"
edition = "2021"
publish = false

[dependencies]
hex = "0.4"
rand = "0.8"
reqwest = { version = "0.11", default-features = false }
tokio = { version = "1", default-features = false, features = ["sync", "time", "io-util"] }
