[package]
name = "lau-complex-analysis"
version = "0.1.0"
edition = "2021"
publish = false

[dependencies]
num-complex = { version = "0.4", features = ["serde"] }
nalgebra = "*"
serde = { version = "1", features = ["derive"] }
