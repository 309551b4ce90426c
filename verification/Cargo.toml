[package]
name = "crayon"
version = "0.1.0"
edition = "2021"
publish = false

[dependencies]
gl = "*"
rayon = "*"
clap = "2"
