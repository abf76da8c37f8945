[package]
name = "l1x_signer"
version = "0.1.0"
edition = "2021"
publish = false

[dependencies]
secp256k1 = { version = "0.28", features = ["hashes", "global-context"] }
k256 = "0.13"
sha3 = "0.10"
hex = "0.4"
serde = { version = "1", features = ["derive"] }
serde_json = "1"
log = "0.4"
anyhow = "1"
reqwest = { version = "0.11", default-features = false, features = ["json"] }
