[package]
name = "buttons_to_mmc"
version = "0.1.0"
edition = "2021"
publish = false

[dependencies]
ghakuf = "*"
midir = "*"
