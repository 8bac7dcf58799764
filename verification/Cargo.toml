[package]
name = "bonding_curve"
version = "0.1.0"
edition = "2021"
publish = false

[dependencies]
solana-program = "*"
serde = { version = "*", features = ["derive"] }
serde_json = "*"
