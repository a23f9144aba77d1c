[package]
name = "rustty"
version = "0.1.0"
edition = "2021"
publish = false

[dependencies]
term = "*"
libc = "*"
nix = { version = "*", features = ["term", "signal", "ioctl"] }
gag = "*"
