[package]
name = "ton_core"
version = "0.1.0"
edition = "2021"
publish = false

[dependencies]
anyhow = "1"
argh = "0.1"
axum = "0.5"
broxus-util = "0.2"
log = "0.4"
parking_lot = "0.12"
serde = { version = "1", features = ["derive"] }
tokio = { version = "1", features = ["rt-multi-thread", "macros", "sync"] }
