[package]
name = "token_gateway"
version = "0.1.0"
edition = "2021"
publish = false

[dependencies]
http = "*"
serde = { version = "*", features = ["derive"] }
serde_json = "*"
tide = "*"
