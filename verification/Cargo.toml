[package]
name = "coinstr"
version = "0.1.0"
edition = "2021"
publish = false

[dependencies]
nostr-sdk = "0.20"
bdk = { version = "0.27", default-features = false, features = ["electrum"] }
tokio = { version = "1", features = ["rt", "sync", "time"] }
futures-util = "0.3"
async-stream = "0.3"
async-recursion = "1"
iced_native = "0.9"
iced_futures = "0.6"
iced_lazy = "0.5"
log = "0.4"
thiserror = "1"
