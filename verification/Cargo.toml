[package]
name = "rust_network"
version = "0.1.0"
edition = "2021"
publish = false

[dependencies]
bytes = "1"
rand_core = { version = "0.6", features = ["getrandom"] }
tokio = { version = "1", features = ["net", "sync", "time", "rt", "rt-multi-thread", "macros"] }
tokio-util = { version = "0.7", features = ["codec"] }
futures = "0.3"
mlua = { version = "0.8", features = ["lua54", "vendored", "async", "send"] }
failure = "0.1"
hex = "0.4"
