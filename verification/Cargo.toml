[package]
name = "payment_router"
version = "0.1.0"
edition = "2021"
publish = false

[dependencies]
josekit = "*"
serde = { version = "*", features = ["derive"] }
serde_json = "*"
