[package]
name = "planet_generator"
version = "0.1.0"
edition = "2021"
publish = false

[dependencies]
noise = "0.6"
delaunator = "*"
rand = "*"
serde = { version = "*", features = ["derive"] }
