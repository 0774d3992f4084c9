[package]
name = "igcl"
version = "0.1.0"
edition = "2021"
publish = false

[dependencies]
anyhow = "1"
bindgen = "*"
bytemuck = "1"
libloading = "0.8"
