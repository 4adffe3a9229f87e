[package]
name = "isolanguage-1"
version = "0.2.2"
edition = "2021"
publish = false

[dependencies]
serde = "1"
