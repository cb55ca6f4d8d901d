[package]
name = "awaiter_trait"
version = "0.1.0"
edition = "2021"
publish = false

[dependencies]
corosensei = "*"
spin = "*"
embedded-io = "*"
embedded-io-async = "*"
