[package]
name = "irbisfs"
version = "0.1.0"
edition = "2021"
publish = false

[dependencies]
blake2-rfc = "0.2"
uuid = { version = "1", features = ["v4"] }
log = "0.4"
log4rs = "1"
net2 = "0.2"
unix_socket = "0.5"
nix = { version = "0.29", features = ["fs"] }
libc = "0.2"
