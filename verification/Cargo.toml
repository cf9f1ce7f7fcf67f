[package]
name = "rjs"
version = "0.1.0"
edition = "2021"
publish = false

[dependencies]
slab = "=0.4.12"
futures = "=0.1.31"
tokio-core = "=0.1.18"
downcast = "0.11"
lazy_static = "=1.5.1"
libc = "=0.2.191"
gl = "=0.14.0"
glutin = "=0.21.2"
mozjs = "=0.10.1"
