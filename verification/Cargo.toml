[package]
name = "qraiop_crypto"
version = "0.1.0"
edition = "2021"
publish = false

[dependencies]
bincode = "=1.3.3"
env_logger = "=0.11.11"
hex = "=0.4.3"
log = "=0.4.34"
pqcrypto-kyber = "=0.8.1"
pqcrypto-traits = "=0.3.5"
rand = "=0.8.8"
serde = { version = "=1.0.229", features = ["derive"] }
subtle = "=2.6.1"
thiserror = "=1.0.69"
zeroize = "=1.9.1"

[dev-dependencies]
pqcrypto-dilithium = "*"
