[package]
name = "thoughts_desktop"
version = "0.1.0"
edition = "2021"
publish = false

[dependencies]
colored = "*"
dirs = "*"
libc = "0.2"
