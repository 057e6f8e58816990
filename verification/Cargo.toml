[package]
name = "kernel_core"
version = "0.1.0"
edition = "2021"
publish = false

[dependencies]
x86_64 = { version = "=0.14.13", default-features = false, features = ["instructions"] }
spin = "=0.9.9"
multiboot2 = "=0.23.1"
