[package]
name = "syslog2"
version = "0.1.0"
edition = "2021"
publish = false

[dependencies]
libc = "=0.2.191"
time = "=0.1.45"
network-constants = "=0.0.1"
