[package]
name = "sanzu_common"
version = "0.1.1"
edition = "2021"
publish = false

[dependencies]
anyhow = "1"
byteorder = "1"
prost = "0.13"
