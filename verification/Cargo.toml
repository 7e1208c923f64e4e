[package]
name = "tsl2591-rs"
version = "0.1.1"
edition = "2021"
publish = false

[dependencies]
embedded-hal = "1.0"
