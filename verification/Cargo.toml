[package]
name = "rodbus"
version = "0.1.0"
edition = "2021"
publish = false

[dependencies]
tokio = { version = "1", features = ["net", "rt", "sync", "time", "io-util", "rt-multi-thread", "macros"] }
