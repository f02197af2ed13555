[package]
name = "contract_descriptor"
version = "0.1.0"
edition = "2021"
publish = false

[dependencies]
bitcoin = "=0.27.1"
miniscript = { version = "=6.1.0", features = ["compiler"] }
serde = { version = "1", features = ["derive"] }
strict_encoding = "=1.8.11"
