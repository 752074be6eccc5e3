[package]
name = "semka"
version = "0.1.0"
edition = "2021"
publish = false

[dependencies]
error-code = "3"
js-sys = "0.3"
libc = "0.2"
