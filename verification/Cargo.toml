[package]
name = "voisia"
version = "0.1.0"
edition = "2021"
publish = false

[dependencies]
log = "*"
reqwest = { version = "=0.12.28", default-features = false, features = ["rustls-tls"] }
