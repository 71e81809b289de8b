[package]
name = "evanbot"
version = "0.1.0"
edition = "2021"
publish = false

[dependencies]
rlbot = "=0.5.0"
