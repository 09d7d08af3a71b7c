[package]
name = "ikos"
version = "0.1.0"
edition = "2021"

[dependencies]
rust-crypto = "0.2.36"
