[package]
name = "change_feed"
version = "0.1.0"
edition = "2021"
publish = false

[dependencies]
bson = "*"
byteorder = "*"
bufstream = "*"
r2d2 = "*"
openssl = "*"
