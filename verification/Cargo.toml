[package]
name = "const_registry"
version = "0.1.0"
edition = "2021"
publish = false

[dependencies]
generational-arena = "*"
glob = "*"
