[package]
name = "openat_ext"
version = "0.1.0"
edition = "2021"
publish = false

[dependencies]
nix = "0.23"
rand = "0.8"
drop_bomb = "0.1"
libc = "0.2"
openat = "0.1"

[dev-dependencies]
tempfile = "3"
