[package]
name = "metagen"
version = "0.1.0"
edition = "2021"
publish = false

[dependencies]
heck = "*"
proc-macro2 = "*"
quote = "*"
syn = "*"
scale-info = "*"
frame-metadata = "*"
