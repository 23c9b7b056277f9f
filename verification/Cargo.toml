[package]
name = "ta_calc"
version = "1.0.0"
edition = "2021"
publish = false

[dependencies]
csv = "1"
