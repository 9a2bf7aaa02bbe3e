[package]
name = "ordered_float"
version = "0.1.0"
edition = "2021"
publish = false

[dependencies]
serde = "*"
rustc-serialize = "*"
