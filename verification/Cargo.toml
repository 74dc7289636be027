[package]
name = "rust_isolate"
version = "0.1.0"
edition = "2021"
publish = false

[dependencies]
crossbeam = "=0.8.5"
uuid = { version = "=1.27.0", features = ["v4"] }
tokio = { version = "*", features = ["rt-multi-thread"] }
