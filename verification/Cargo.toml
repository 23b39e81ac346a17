[package]
name = "blocking_wait"
version = "0.1.0"
edition = "2021"
publish = false

[dependencies]
tokio = { version = "1", features = ["rt", "rt-multi-thread", "time", "macros"] }
futures-util = "0.3"
log = "0.4"
