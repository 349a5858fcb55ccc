[package]
name = "dstcluster"
version = "0.1.0"
edition = "2021"
publish = false

[dependencies]
anyhow = "1"
log = "0.4"
simple_logger = "*"
tokio = { version = "1", features = ["macros", "rt-multi-thread"] }
