[package]
name = "native_interop"
version = "0.1.0"
edition = "2021"
publish = false

[dependencies]
flate2 = "1"
libc = "0.2"
md5 = "0.7"
sha1 = "0.10"
