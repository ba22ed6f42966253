[package]
name = "jiglagain"
version = "0.1.0"
edition = "2021"
publish = false

[dependencies]
num = "*"
rand = "0.8"
lv2-core = "*"
urid = "*"
