[package]
name = "vpg"
version = "0.1.0"
edition = "2021"
publish = false

[dependencies]
toml = "0.8"
getopts = "0.2"
serde = "1"
