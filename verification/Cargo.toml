[package]
name = "lole"
version = "0.1.0"
edition = "2021"
publish = false

[dependencies]
nom = "7"
crossbeam-channel = "0.5"
tera = { version = "1", default-features = false }
