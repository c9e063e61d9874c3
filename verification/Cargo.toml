[package]
name = "catcher"
version = "0.1.0"
edition = "2021"
publish = false

[dependencies]
percent-encoding = "*"
mime = "*"
