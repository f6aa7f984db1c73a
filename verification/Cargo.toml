[package]
name = "mipidsi"
version = "0.1.0"
edition = "2021"
publish = false

[dependencies]
display-interface = "*"
embedded-graphics-core = "*"
embedded-hal = "*"
