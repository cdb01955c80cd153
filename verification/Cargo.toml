[package]
name = "rusty_tcp"
version = "0.1.0"
edition = "2021"
publish = false

[dependencies]
anyhow = "*"
etherparse = "*"
libc = "*"
tun-tap = "*"
