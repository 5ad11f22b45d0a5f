[package]
name = "haptic_router"
version = "0.1.0"
edition = "2021"
publish = false

[dependencies]
async-osc = "*"
async-std = { version = "*", features = ["attributes"] }
configparser = "*"
