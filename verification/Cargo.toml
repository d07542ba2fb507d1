[package]
name = "mini_obj"
version = "0.1.0"
edition = "2021"
publish = false

[dependencies]
wavefront_obj = "*"
