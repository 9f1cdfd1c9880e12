[package]
name = "am2320"
version = "0.1.0"
edition = "2021"
publish = false

[dependencies]
embedded-hal = "1"
