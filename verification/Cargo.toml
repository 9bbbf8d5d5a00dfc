[package]
name = "node_api_client"
version = "0.1.0"
edition = "2021"
publish = false

[dependencies]
serde_json = "1"
ws = "0.9"
crossbeam = "0.8"
node-primitives = "*"
