[package]
name = "huff_report"
version = "0.1.0"
edition = "2021"
publish = false

[dependencies]
comfy-table = "6.1.4"
ethers-core = "1.0.2"
serde = { version = "1", features = ["derive"] }
serde_json = "1"
yansi = "0.5.1"
