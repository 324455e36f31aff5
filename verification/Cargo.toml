[package]
name = "oxagaudiotool"
version = "0.1.0"
edition = "2021"
publish = false

[dependencies]
kira = "0.8"
