[package]
name = "assert_ok"
version = "0.1.0"
edition = "2021"
publish = false

[dependencies]
clippy_utils = "*"
