[package]
name = "eather_grid"
version = "0.1.0"
edition = "2021"
publish = false

[dependencies]
soroban-sdk = { version = "25", features = ["testutils"] }
