[package]
name = "http_error"
version = "0.1.0"
edition = "2021"
publish = false

[dependencies]
http = "1"
log = "0.4"
warp = "0.3"
