[package]
name = "nfs_mamont"
version = "0.1.0"
edition = "2021"
publish = false

[dependencies]
byteorder = "1"
num-traits = "0.2"
filetime = "0.2"
dashmap = "6"
tokio = { version = "1", features = ["rt", "rt-multi-thread", "net", "io-util", "sync", "time", "macros"] }
tracing = "0.1"
futures = "0.3"
anyhow = "1"
async-trait = "0.1"
tokio-uring = "0.5"
