[package]
name = "voxie"
version = "0.1.0"
edition = "2021"
publish = false

[dependencies]
num_cpus = "*"
zhconv = "*"
chrono = "*"
serde = { version = "*", features = ["derive"] }
serde_json = "*"
dirs = "*"
