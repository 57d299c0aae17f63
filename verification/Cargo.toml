[package]
name = "faasrail_loadgen"
version = "0.1.0"
edition = "2021"
publish = false

[dependencies]
serde_json = "1"
rand_chacha = "0.3"
rand_distr = "0.4"
rand_xoshiro = "0.6"
serde = { version = "1", features = ["derive"] }
csv = "1"
tokio = { version = "1", features = ["rt-multi-thread", "sync", "time", "signal", "macros"] }
argh = "0.1"
anyhow = "1"
