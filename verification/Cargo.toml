[package]
name = "gax"
version = "0.1.0"
edition = "2021"
publish = false

[dependencies]
rand = "*"
tonic = "*"
log = "*"
