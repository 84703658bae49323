[package]
name = "solidity_guard"
version = "0.1.0"
edition = "2021"
publish = false

[dependencies]
tree-sitter = "*"
tree-sitter-solidity = "*"
log = "*"
serde = { version = "*", features = ["derive"] }
