[package]
name = "cr_api"
version = "0.1.0"
edition = "2021"
publish = false

[dependencies]
validator = "*"
uuid = { version = "*", features = ["v4"] }
rand = "*"
chrono = "*"
