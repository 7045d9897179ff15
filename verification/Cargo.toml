[package]
name = "copywave"
version = "0.1.0"
edition = "2021"
publish = false

[dependencies]
anyhow = "*"
clap = { version = "*", features = ["derive"] }
console = "*"
dialoguer = "*"
signal-hook = "*"
