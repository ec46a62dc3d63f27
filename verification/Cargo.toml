[package]
name = "automation_types"
version = "0.1.0"
edition = "2021"
publish = false

[dependencies]
staging-xcm = "*"
parity-scale-codec = { version = "*", features = ["derive"] }
scale-info = { version = "*", features = ["derive"] }
