[package]
name = "tls_core"
version = "0.1.0"
edition = "2021"
publish = false

[dependencies]
ring = "0.16.20"
