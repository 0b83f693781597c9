[package]
name = "evm_context"
version = "0.1.0"
edition = "2021"
publish = false

[dependencies]
alloy-primitives = { version = "0.7", default-features = false, features = ["std", "rlp"] }
serde = { version = "1", features = ["derive"] }
