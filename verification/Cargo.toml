[package]
name = "ktmm"
version = "0.1.0"
edition = "2021"
publish = false

[dependencies]
ctrlc = "3"
device_query = "1"
enigo = "0.1"
