[package]
name = "kosmoss"
version = "0.1.0"
edition = "2021"
publish = false

[dependencies]
nalgebra = "*"
hifitime = "*"
csv = "*"
chrono = "*"
dirs = "*"
reqwest = { version = "*", default-features = false, features = ["blocking", "rustls-tls"] }
