[package]
name = "single_sided_staking"
version = "0.1.0"
edition = "2021"
publish = false

[dependencies]
near-sdk = { version = "5", features = ["unit-testing", "legacy"] }
near-contract-standards = "5"
serde = { version = "1", features = ["derive"] }
serde_json = "1"
