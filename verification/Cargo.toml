[package]
name = "tank_demo"
version = "0.1.0"
edition = "2021"
publish = false

[dependencies]
serde = { version = "=1.0.229", features = ["derive"] }
ron = "=0.12.2"
genmesh = "*"
nalgebra = "*"
