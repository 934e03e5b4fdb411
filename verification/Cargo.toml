[package]
name = "golem"
version = "0.1.0"
edition = "2021"
publish = false

[dependencies]
glow = "0.4"
