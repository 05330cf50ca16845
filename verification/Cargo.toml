[package]
name = "mango_v4"
version = "0.1.0"
edition = "2021"
publish = false

[dependencies]
fixed = "1.11.0"
anchor-lang = "0.25.0"
