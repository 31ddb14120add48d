[package]
name = "rustyproxy"
version = "0.1.0"
edition = "2021"
publish = false

[dependencies]
tokio = { version = "*", features = ["macros", "net", "rt-multi-thread", "io-util", "time"] }
