[package]
name = "inbound_proxy"
version = "0.1.0"
edition = "2021"
publish = false

[dependencies]
indexmap = "*"
tokio = { version = "*", features = ["full"] }
libc = "*"
socket2 = "*"
