[package]
name = "dit"
version = "0.1.0"
edition = "2021"
publish = false

[dependencies]
sha1 = "=0.10.7"
sha2 = "=0.9.9"
hex = "=0.4.3"
libsecp256k1 = "=0.7.2"
serde = { version = "=1.0.229", features = ["derive"] }
serde_json = "=1.0.154"
toml = "=0.5.11"
clap = "=2.34.0"
reqwest = { version = "=0.9.24", default-features = false }
rocket = { version = "0.5", features = ["json"] }
curv-kzen = "=0.9.0"
kzen-paillier = "=0.4.2"
zk-paillier = "=0.4.3"
multi-party-ecdsa = "=0.8.1"
