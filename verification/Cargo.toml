[package]
name = "syncprims"
version = "0.1.0"
edition = "2021"

[dependencies]
atomic-wait = "*"
