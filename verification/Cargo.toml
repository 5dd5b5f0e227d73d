[package]
name = "probriquegl"
version = "0.1.0"
edition = "2021"
publish = false

[dependencies]
lazy_static = "1"
libc = "0.2"
rand = "0.8"
