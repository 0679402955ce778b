[package]
name = "klamottenkiste"
version = "0.1.0"
edition = "2021"
publish = false

[dependencies]
crossbeam-channel = "0.5"
gtk4 = { version = "*", features = ["v4_14"] }
x11rb = "0.13"
