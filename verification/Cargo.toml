[package]
name = "no_unused_vars"
version = "0.1.0"
edition = "2021"
publish = false

[dependencies]
ignore = "*"
