[package]
name = "pil_printer"
version = "0.1.0"
edition = "2021"

[dependencies]
itertools = "*"
