[package]
name = "pixel_picker"
version = "0.1.0"
edition = "2021"
publish = false

[dependencies]
png = "0.17"
rand = "0.8"
