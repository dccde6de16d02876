[package]
name = "pswd"
version = "0.1.0"
edition = "2021"
publish = false

[dependencies]
clap = { version = "4", features = ["derive"] }
cli-clipboard = "*"
rand = "0.8"
