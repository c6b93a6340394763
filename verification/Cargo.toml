[package]
name = "camino-anchored"
version = "0.1.0"
edition = "2021"
publish = false

[dependencies]
camino = "1"

[dev-dependencies]
camino-tempfile = "1"
