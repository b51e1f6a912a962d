[package]
name = "ganzhe"
version = "0.1.0"
edition = "2021"
publish = false

[dependencies]
bytes = "1"
smallvec = "1"
rand = "0.8"
tokio = { version = "1", features = ["rt", "rt-multi-thread", "sync", "time", "macros"] }
anyhow = "1"
thiserror = "1"
async-trait = "0.1"
