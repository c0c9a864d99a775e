[package]
name = "sync_core"
version = "0.1.0"
edition = "2021"
publish = false

[dependencies]
url = "2"
tokio = { version = "1", features = ["macros", "rt-multi-thread", "sync", "time"] }
