[package]
name = "rtest"
version = "0.1.0"
edition = "2021"
publish = false

[dependencies]
indicatif = { version = "*", features = ["rayon"] }
prettytable-rs = "*"
rayon = "*"
serde = { version = "*", features = ["derive"] }
serde_json = "*"
