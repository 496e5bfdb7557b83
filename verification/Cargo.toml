[package]
name = "flood_chat"
version = "0.1.0"
edition = "2021"
publish = false

[dependencies]
anyhow = "1"
futures = "0.3"
libp2p = { version = "*", features = ["floodsub", "macros", "mdns", "noise", "tcp", "tokio", "yamux"] }
log = "0.4"
tokio = { version = "1", features = ["io-std", "io-util", "macros", "rt-multi-thread", "signal"] }
