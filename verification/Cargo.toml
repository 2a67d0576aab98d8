[package]
name = "udpsock"
version = "0.1.0"
edition = "2021"
publish = false

[dependencies]
socket2 = { version = "=0.3.19", features = ["unix"] }
mio = "=0.6.23"
