[package]
name = "dc_mods"
version = "0.1.0"
edition = "2021"
publish = false

[dependencies]
bincode = { version = "2", features = ["derive"] }
tungstenite = "*"
