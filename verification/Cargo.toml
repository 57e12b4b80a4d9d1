[package]
name = "tiv"
version = "0.1.0"
edition = "2021"
publish = false

[dependencies]
ansi_term = "0.12"
image = "0.24"
ndarray = "0.15"
termion = "2.0"
