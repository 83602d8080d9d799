[package]
name = "digital_rain"
version = "0.1.0"
edition = "2021"
publish = false

[dependencies]
crossterm = "0.28"
image = { version = "0.25", default-features = false, features = ["png"] }
rand = "0.9"
term_size = "0.3"
