[package]
name = "serde_plain"
version = "0.1.0"
edition = "2021"
publish = false

[dependencies]
serde = "1.0"
syn = "2.0"
