[package]
name = "semalock"
version = "0.1.0"
edition = "2021"
publish = false

[dependencies]
errno = "*"
fs2 = "*"
libc = "*"

[dev-dependencies]
tempfile = "*"
