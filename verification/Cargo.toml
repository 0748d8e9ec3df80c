[package]
name = "apple_mps"
version = "0.3.0"
edition = "2021"
publish = false

[dependencies]
apple-metal = "0.10"
