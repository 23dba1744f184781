[package]
name = "bit_torrent_rs"
version = "0.1.0"
edition = "2021"
publish = false

[dependencies]
hex = "0.4"
percent-encoding = "2"
sha1 = "0.10"
serde = { version = "1", features = ["derive"] }
serde_derive = "1"
serde_bencode = "0.2"
serde_bytes = "0.11"
async-channel = "2"
tokio = { version = "1", features = ["rt-multi-thread", "net", "io-util", "fs", "time"] }
reqwest = { version = "0.12", default-features = false }
