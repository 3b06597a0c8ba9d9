[package]
name = "tx_generator"
version = "0.1.0"
edition = "2021"
publish = false

[dependencies]
bip32 = { version = "=0.6.0", features = ["alloc"] }
bip39 = "=3.0.0"
bpaf = { version = "=0.9.28", features = ["derive"] }
libzeropool-rs = "=0.9.1"
rayon = "=1.12.0"
secp256k1 = "=0.33.1"
serde_json = "=1.0.151"
web3 = { version = "=0.19.0", default-features = false, features = ["signing"] }
