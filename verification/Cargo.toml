[package]
name = "morpheus_network"
version = "0.1.0"
edition = "2021"
publish = false

[dependencies]
smoltcp = { version = "0.11", default-features = false, features = ["alloc", "medium-ethernet", "proto-ipv4", "socket-tcp", "socket-dhcpv4", "socket-dns"] }
gpt_disk_io = "*"
gpt_disk_types = "*"
