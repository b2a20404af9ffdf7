[package]
name = "lc3_backend"
version = "0.1.0"
edition = "2021"
publish = false

[dependencies]
lc3-ensemble = "=0.1.0"
neon = "=1.0.0"
once_cell = "=1.19.0"
