[package]
name = "fuzz_publisher"
version = "0.1.0"
edition = "2021"
publish = false

[dependencies]
arbitrary = "1"
futures = "0.3"
r2r = "*"
serde_json = "1"
yaml-rust = "0.4"
