[package]
name = "qaul_models"
version = "0.1.0"
edition = "2021"
publish = false

[dependencies]
bincode = "1"
sodiumoxide = "0.2"
keybob = "*"
serde = { version = "1", features = ["derive"] }
serde_json = "1"
