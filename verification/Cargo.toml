[package]
name = "crypto_election"
version = "0.1.0"
edition = "2021"
publish = false

[dependencies]
rand = "*"
sha2 = "*"
serde = { version = "*", features = ["derive"] }
