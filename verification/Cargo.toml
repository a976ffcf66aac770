[package]
name = "puzzle_layers"
version = "0.1.0"
edition = "2021"
publish = false

[dependencies]
anyhow = "=1.0.104"
chia = "=0.20.0"
chia-wallet-sdk = { version = "=0.22.1", default-features = false }
clvmr = "=0.12.1"
hex = "=0.4.3"
serde = { version = "=1.0.229", features = ["derive"] }
serde_json = "=1.0.154"

[dev-dependencies]
chia-puzzles = "=0.20.3"
