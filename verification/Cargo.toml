[package]
name = "pathmut"
version = "0.1.0"
edition = "2021"
publish = false

[dependencies]
typed-path = "*"
clap = { version = "4", features = ["cargo"] }
