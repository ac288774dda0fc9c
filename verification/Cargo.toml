[package]
name = "cgmath"
version = "0.1.0"
edition = "2021"
publish = false

[dependencies]
approx = "*"
rand = "*"
