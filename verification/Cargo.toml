[package]
name = "aarch64-esr-decoder"
version = "0.1.0"
edition = "2021"
publish = false

[dependencies]
bit_field = "0.10.1"
thiserror = "1.0"
