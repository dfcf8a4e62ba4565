[package]
name = "textchain"
version = "0.1.0"
edition = "2021"
publish = false

[dependencies]
sha2 = "=0.11.0"
hex = "=0.4.3"
serde = { version = "=1.0.229", features = ["derive"] }
serde_json = "=1.0.151"
tokio = { version = "=1.53.2", features = ["full"] }
once_cell = "=1.21.4"
libp2p = { version = "=0.53.2", features = ["floodsub", "mdns", "tcp", "tokio", "noise", "yamux", "macros"] }
