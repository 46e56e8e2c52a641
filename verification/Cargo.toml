[package]
name = "wallet"
version = "0.1.0"
edition = "2021"
publish = false

[dependencies]
alloy = { version = "1", default-features = false, features = ["std"] }
zeroize = "1"
rand = "0.9"
if-addrs = "0.14"
serde_json = "1"
futures-util = "0.3"
eyre = "0.6"
tokio = { version = "1", features = ["rt-multi-thread", "sync", "time", "macros"] }
