[package]
name = "roster_engine"
version = "0.1.0"
edition = "2021"
publish = false

[dependencies]
rand = "*"
chrono = "*"
uuid = { version = "*", features = ["v7"] }
csv = "*"
