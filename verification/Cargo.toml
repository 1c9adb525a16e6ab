[package]
name = "benchmark"
version = "0.1.0"
edition = "2021"
publish = false

[dependencies]
async-std = { version = "1.12", features = ["attributes"] }
clap = { version = "4", features = ["derive"] }
env_logger = "0.10"
futures = "0.3"
futures-timer = "3"
libp2p = { version = "0.52", features = ["async-std", "dcutr", "dns", "ed25519", "identify", "macros", "noise", "ping", "quic", "relay", "tcp", "yamux"] }
libp2p-perf = "0.2"
log = "0.4"
