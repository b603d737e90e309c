[package]
name = "circuit_playground"
version = "0.1.0"
edition = "2021"
publish = false

[dependencies]
firmata = "*"
serial = "*"
hex = "*"
