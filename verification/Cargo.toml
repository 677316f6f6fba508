[package]
name = "file_exchange"
version = "0.1.0"
edition = "2021"
publish = false

[dependencies]
async-std = { version = "1", features = ["attributes"] }
async-trait = "0.1"
clap = { version = "3", features = ["derive"] }
futures = "0.3"
libp2p = { version = "0.52.4", default-features = false, features = ["async-std", "dns", "ed25519", "kad", "macros", "noise", "request-response", "tcp", "websocket", "yamux"] }
