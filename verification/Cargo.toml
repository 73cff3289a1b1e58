[package]
name = "cargo_mcp"
version = "0.1.0"
edition = "2021"
publish = false

[dependencies]
rmcp = "*"
serde = "*"
serde_json = "*"
