[package]
name = "dig_nft"
version = "0.1.0"
edition = "2021"
publish = false

[dependencies]
chia-protocol = "=0.52.1"
chia-puzzle-types = "=0.52.1"
chia-wallet-sdk = "=0.37.1"
clvm-traits = "=0.52.1"
clvmr = "=0.21.0"
thiserror = "=2.0.21"

[dev-dependencies]
chia-sdk-test = "=0.37.1"
anyhow = "=1.0.104"
hex = "=0.4.3"
