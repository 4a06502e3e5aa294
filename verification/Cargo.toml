[package]
name = "ferric"
version = "0.1.0"
edition = "2021"
publish = false

[dependencies]
fern = "0.6"
httparse = "1"
humantime = "2"
log = "0.4"
