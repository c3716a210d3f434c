[package]
name = "declarative"
version = "0.1.0"
edition = "2021"
publish = false

[dependencies]
byteorder = "=1.5.0"
quote = "0.3"
syn = "0.11"
