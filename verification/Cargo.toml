[package]
name = "ring_ring"
version = "0.1.0"
edition = "2021"
publish = false

[dependencies]
anyhow = "1"
dirs = "5"
ed25519-dalek = "2"
env_logger = "0.11"
hex = "0.4"
libp2p = { version = "0.53", features = ["gossipsub", "mdns", "noise", "tcp", "yamux", "tokio", "macros"] }
libp2p-swarm-derive = "0.34"
log = "0.4"
mdns-sd = "0.11"
quinn = { version = "0.11", default-features = false, features = ["runtime-tokio", "rustls-ring", "log"] }
rustls = { version = "0.23", default-features = false, features = ["ring", "std", "logging", "tls12"] }
rcgen = "0.13"
rand = "0.8"
serde = { version = "1", features = ["derive"] }
serde_json = "1"
snow = "0.9"
tokio = { version = "1", features = ["full"] }
