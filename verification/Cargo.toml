[package]
name = "zkwasm_arith"
version = "0.1.0"
edition = "2021"
publish = false

[dependencies]
anyhow = "1"
bincode = "1"
clap = { version = "4", features = ["derive"] }
console = "0.15"
env_logger = "0.11"
md5 = "0.7"
serde = { version = "1", features = ["derive"] }
