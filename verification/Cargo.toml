[package]
name = "sol-pay-client"
version = "0.1.0"
edition = "2021"
publish = false

[dependencies]
solana-pubkey = { version = "2.4", features = ["curve25519"] }
solana-instruction = "2.3"
borsh = "1"
wasm-bindgen = "0.2"
serde = { version = "1", features = ["derive"] }
serde-wasm-bindgen = "0.6"
serde_bytes = "0.11"

[dev-dependencies]
sha2 = "0.10"
