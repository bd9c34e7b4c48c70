[package]
name = "hunterfi"
version = "0.1.0"
edition = "2021"
publish = false

[dependencies]
candid = "0.10"
hex = "0.4"
serde = { version = "1", features = ["derive"] }
serde_bytes = "0.11"
bincode = "1"
async-trait = "0.1"
ic-cdk = "0.16"
ic-cdk-macros = "0.16"
ic-cdk-timers = "0.10"
ic-ledger-types = "0.13"
ic-stable-structures = "0.6"
