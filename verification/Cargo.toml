[package]
name = "tee_core"
version = "0.1.0"
edition = "2021"
publish = false

[dependencies]
x86 = "*"
multiboot2 = "*"
