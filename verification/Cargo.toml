[package]
name = "shrinkers"
version = "0.1.0"
edition = "2021"
publish = false

[dependencies]
ndarray = "0.17"
num-complex = "0.4"
rayon = "1"
rustfft = "6"
