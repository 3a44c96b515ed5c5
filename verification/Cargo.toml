[package]
name = "op_block_validation"
version = "0.1.0"
edition = "2021"
publish = false

[dependencies]
reth-primitives = "=0.0.0"
reth-consensus = "=0.0.0"
alloy-primitives = { version = "*", default-features = false, features = ["std"] }
