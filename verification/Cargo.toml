[package]
name = "walkers"
version = "0.1.0"
edition = "2021"
publish = false

[dependencies]
image = { version = "*", default-features = false, features = ["png", "jpeg"] }
egui = { version = "*", default-features = false }
futures = "*"
log = "*"
reqwest = { version = "*", default-features = false }
reqwest-middleware = "*"
thiserror = "*"
