[package]
name = "response_channel"
version = "0.1.0"
edition = "2021"
publish = false

[dependencies]
derive_more = { version = "=0.99.20", default-features = false, features = ["display"] }
tokio = { version = "=1.54.1", default-features = false, features = ["sync"] }
