[package]
name = "keyutils"
version = "0.4.0"
edition = "2021"
publish = false

[dependencies]
errno = "0.2"
libc = "0.2"
log = "0.4"
uninit = "0.3"
