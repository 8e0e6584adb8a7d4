[package]
name = "mdk_e2e_test"
version = "0.1.0"
edition = "2021"
publish = false

[dependencies]
async-trait = "0.1"
base64 = "0.22"
hex = "0.4"
k256 = { version = "0.13", features = ["schnorr"] }
nostr-sdk = "0.44"
sha2 = "0.10"
tokio = { version = "1", features = ["time", "macros", "rt-multi-thread"] }
