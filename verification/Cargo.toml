[package]
name = "prf_metrics"
version = "0.1.0"
edition = "2021"
publish = false

[dependencies]
ndarray = { version = "0.16", features = ["rayon"] }
num = "0.4"
