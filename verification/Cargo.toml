[package]
name = "pty"
version = "0.2.0"
edition = "2021"
publish = false

[dependencies]
errno = "*"
libc = "0.2"
nix = { version = "*", features = ["fs", "process", "term"] }
