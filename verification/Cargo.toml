[package]
name = "openkdsim"
version = "0.1.0"
edition = "2021"
publish = false

[dependencies]
circular-queue = "*"
gl_matrix = "=0.0.2"
lazy_static = "=1.5.1"
serde = { version = "=1.0.229", features = ["derive"] }
