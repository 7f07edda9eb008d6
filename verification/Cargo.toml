[package]
name = "arrow_native"
version = "0.1.0"
edition = "2021"
publish = false

[dependencies]
half = { version = "2", default-features = false }
num = { version = "0.4", default-features = false }
