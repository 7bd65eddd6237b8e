[package]
name = "buttplug"
version = "0.1.0"
edition = "2021"
publish = false

[dependencies]
getset = "0.1"
serde = { version = "1", features = ["derive"] }
