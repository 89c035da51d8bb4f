[package]
name = "solar_navigator"
version = "0.1.0"
edition = "2021"
publish = false

[dependencies]
chrono = "=0.4.45"
reqwest = { version = "=0.12.28", default-features = false, features = ["blocking"] }
image = { version = "=0.25.10", default-features = false, features = ["png"] }
winit = "=0.30.13"
rust-spice = "*"
