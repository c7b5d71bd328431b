[package]
name = "testcase_stream"
version = "0.1.0"
edition = "2021"
publish = false

[dependencies]
tokio = { version = "1", features = ["fs", "io-util", "sync", "rt"] }
tokio-util = { version = "0.7", features = ["io"] }
actix-web = { version = "4", default-features = false, features = ["macros"] }
actix-rt = "2"
actix-cors = "*"
log = "0.4"
env_logger = "*"
