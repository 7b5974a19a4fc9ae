[package]
name = "ludi"
version = "0.1.0"
edition = "2021"
publish = false

[dependencies]
futures-channel = { version = "=0.3.34", features = ["sink"] }
futures-core = "=0.3.34"
futures-util = { version = "=0.3.34", features = ["sink"] }
