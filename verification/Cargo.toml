[package]
name = "domain_probe"
version = "0.1.0"
edition = "2021"
publish = false

[dependencies]
reqwest = { version = "*", default-features = false, features = ["blocking"] }
csv = "*"
serde = { version = "*", features = ["derive"] }
color-print = "*"
indicatif = "*"
