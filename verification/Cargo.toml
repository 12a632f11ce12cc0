[package]
name = "rlox"
version = "0.1.0"
edition = "2021"
publish = false

[dependencies]
bytes = "*"
rustc_apfloat = "*"
