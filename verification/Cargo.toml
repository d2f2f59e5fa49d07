[package]
name = "virtual_world"
version = "0.1.0"
edition = "2021"
publish = false

[dependencies]
siphasher = "*"
flate2 = "*"
tar = "*"
chrono = "*"
ureq = { version = "*", default-features = false }
