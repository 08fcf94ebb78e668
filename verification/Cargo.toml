[package]
name = "batman"
version = "0.1.0"
edition = "2021"
publish = false

[dependencies]
array-macro = "*"
libc = "*"
signal-hook-registry = "*"
