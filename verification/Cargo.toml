[package]
name = "hub75"
version = "0.1.0"
edition = "2021"
publish = false

[dependencies]
embedded-graphics-core = "=0.4.1"
embedded-hal = "=1.0.0"
embedded-hal-async = "=1.0.0"
