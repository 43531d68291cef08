[package]
name = "clightning-plugin-api"
version = "0.1.0"
edition = "2021"
publish = false

[dependencies]
clightningrpc = "*"
serde = { version = "1", features = ["derive"] }
serde_derive = "1"
serde_json = "1"
