[package]
name = "xcb_imdkit"
version = "0.1.0"
edition = "2021"
publish = false

[dependencies]
libc = "0.2"
xcb = "0.9"
