[package]
name = "railroad"
version = "0.2.1"
edition = "2021"
publish = false

[dependencies]
chrono = "*"
clap = { version = "*", features = ["derive"] }
colored = "*"
dialoguer = "*"
serde_json = "*"
