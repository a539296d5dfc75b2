[package]
name = "imagesound"
version = "0.1.0"
edition = "2021"
publish = false

[dependencies]
fundsp = "0.14"
image = "0.24"
