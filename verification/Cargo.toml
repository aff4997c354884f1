[package]
name = "swapbytes"
version = "0.1.0"
edition = "2021"
publish = false

[dependencies]
chrono = "0.4"
clap = { version = "4", features = ["derive"] }
crossterm = "0.28"
libp2p = { version = "0.54", features = ["tokio", "tcp", "noise", "yamux", "mdns", "kad", "gossipsub", "request-response", "cbor", "macros"] }
ratatui = "0.29"
serde = { version = "1", features = ["derive"] }
tokio = { version = "1", features = ["full"] }
