[package]
name = "tensorflow_serving"
version = "0.1.0"
edition = "2021"
publish = false

[dependencies]
image = { version = "0.25", default-features = false, features = ["png", "jpeg"] }
prost = "0.13"
prost-types = "0.13"
tonic = "0.12"
