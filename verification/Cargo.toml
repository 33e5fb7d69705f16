[package]
name = "peer_sync"
version = "0.1.0"
edition = "2021"
publish = false

[dependencies]
bytes = "1"
futures = "0.3"
futures-timer = "3"
libp2p = { version = "*", default-features = false, features = ["request-response"] }
log = "0.4"
lru = "0.7"
parity-scale-codec = { version = "3", features = ["derive"] }
