[package]
name = "donation"
version = "0.1.0"
edition = "2021"
publish = false

[dependencies]
concordium-std = { version = "8", default-features = false, features = ["std"] }
