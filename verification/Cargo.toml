[package]
name = "udev"
version = "0.1.0"
edition = "2021"
publish = false

[dependencies]
libc = "=0.2.190"
mio = { version = "=0.8.11", features = ["os-ext", "os-poll"] }
