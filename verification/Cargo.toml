[package]
name = "transdirect"
version = "0.1.0"
edition = "2021"
publish = false

[dependencies]
restson = "*"
serde = { version = "*", features = ["derive"] }
serde_derive = "*"
time = { version = "*", features = ["serde-well-known"] }
