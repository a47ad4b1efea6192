[package]
name = "conn_lifecycle"
version = "0.1.0"
edition = "2021"
publish = false

[dependencies]
embassy-executor = "=0.5.1"
embassy-net = { version = "=0.4.0", features = ["tcp", "dhcpv4", "dns", "medium-ethernet", "proto-ipv4"] }
embassy-time = "=0.3.2"
heapless = "=0.8.0"
log = "=0.4.34"
rust-mqtt = { version = "=0.3.0", default-features = false }
smoltcp = { version = "=0.11.0", default-features = false, features = ["proto-ipv4", "socket-dns"] }
static_cell = "=2.1.1"
