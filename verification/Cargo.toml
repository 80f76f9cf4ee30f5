[package]
name = "tokio_quicker"
version = "0.1.0"
edition = "2021"
publish = false

[dependencies]
boring = "=4.22.0"
chrono = "=0.4.45"
log = "=0.4.35"
quiche = { version = "=0.20.1", default-features = false }
rand = "=0.8.8"
ring = "=0.17.14"
rust-crypto = "=0.2.36"
tokio = { version = "=1.54.1", features = ["io-util", "macros", "net", "rt-multi-thread", "sync"] }
