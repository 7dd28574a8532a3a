[package]
name = "pallet_verifier"
version = "0.1.0"
edition = "2021"
publish = false

[dependencies]
frame-support = "49.0.0"
frame-system = "49.0.0"
parity-scale-codec = { version = "3.7.5", features = ["derive"] }
scale-info = { version = "2", features = ["derive"] }
