[package]
name = "rusmpp"
version = "0.1.0"
edition = "2021"
publish = false

[dependencies]
bytes = "*"
futures = "*"
tokio = { version = "*", features = ["rt", "sync", "time", "io-util", "macros"] }
tokio-util = { version = "*", features = ["codec"] }
