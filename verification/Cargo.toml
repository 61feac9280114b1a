[package]
name = "chill"
version = "0.1.0"
edition = "2021"
publish = false

[dependencies]
rustc_apfloat = "*"
pyo3 = "*"
numpy = "*"
