[package]
name = "resamplescope"
version = "0.1.0"
edition = "2021"
publish = false

[dependencies]
imgref = "*"
rgb = "*"
thiserror = "*"
