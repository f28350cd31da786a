[package]
name = "lc3_backend"
version = "0.1.0"
edition = "2021"
publish = false

[dependencies]
lc3-ensemble = "*"
neon = "1"
miette = { version = "7", features = ["fancy"] }
owo-colors = "4"
ariadne = "0.4"
crossbeam-channel = "0.5"
once_cell = "1"
