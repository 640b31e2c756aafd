[package]
name = "oppai-rs"
version = "0.2.3"
edition = "2021"
publish = false

[dependencies]
bitflags = "1.2"
libc = "0.2"
