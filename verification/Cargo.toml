[package]
name = "htlc_ledger"
version = "0.1.0"
edition = "2021"
publish = false

[dependencies]
sha2 = "*"
hex = "*"
rand = "*"
base64 = "*"
chrono = "*"
serde_json = "*"
sled = "*"
directories = "*"
