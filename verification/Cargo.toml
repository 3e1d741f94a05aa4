[package]
name = "nodejs"
version = "0.1.0"
edition = "2021"
publish = false

[dependencies]
libc = "=0.2.190"
napi = "=3.14.2"
neon = { version = "=1.1.2", features = ["sys"] }
