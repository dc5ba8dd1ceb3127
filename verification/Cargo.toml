[package]
name = "app_packaging"
version = "0.1.0"
edition = "2021"
publish = false

[dependencies]
tar = "*"
xz2 = "*"
