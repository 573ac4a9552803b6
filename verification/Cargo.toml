[package]
name = "endur"
version = "0.1.0"
edition = "2021"
publish = false

[dependencies]
ldk-node = "0.5"
pyo3 = { version = "0.22", features = ["extension-module"] }
serde_json = "1"
ureq = "2"
