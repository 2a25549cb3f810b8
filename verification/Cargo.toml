[package]
name = "ogg2caf"
version = "0.1.0"
edition = "2021"
publish = false

[dependencies]
anyhow = "1"
byteorder = "1"
caf = "*"
ogg = "*"
