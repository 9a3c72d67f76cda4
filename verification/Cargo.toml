[package]
name = "resize_gateway"
version = "0.1.0"
edition = "2021"
publish = false

[dependencies]
hex = "=0.4.3"
sha2 = "=0.10.9"
image = { version = "=0.24.9", default-features = false, features = ["png", "jpeg", "gif", "bmp", "webp"] }
log = "=0.4.34"
worker = "0.8.7"
