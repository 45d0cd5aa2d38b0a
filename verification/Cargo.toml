[package]
name = "megadex"
version = "0.1.0"
edition = "2021"
publish = false

[dependencies]
rkv = "*"
bincode = "1"
tempfile = "3"
serde = "1"
serde_derive = "1"
