[package]
name = "farcaster_node"
version = "0.1.0"
edition = "2021"

[dependencies]
bitcoin = "=0.28.1"
monero = "=0.17.3"
farcaster_core = "=0.5.1"
internet2 = { version = "=0.8.4", default-features = false }
# a release with which monero and farcaster_core build
serde = "=1.0.152"
