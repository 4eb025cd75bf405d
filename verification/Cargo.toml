[package]
name = "tcp_engine"
version = "0.1.0"
edition = "2021"

[dependencies]
etherparse = "*"
tun-tap = "*"
