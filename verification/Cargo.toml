[package]
name = "staff"
version = "0.1.0"
edition = "2021"
publish = false

[dependencies]
rusttype = "=0.9.3"
svg = "=0.12.1"
text-svg = "=0.1.2"
