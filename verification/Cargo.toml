[package]
name = "sellafield"
version = "0.1.0"
edition = "2021"
publish = false

[dependencies]
anyhow = "1"
argh = "0.1"
errno = "0.3"
fs-err = "2"
libc = "0.2"
rhai = "1"
