[package]
name = "c2f"
version = "0.1.0"
edition = "2021"
publish = false

[dependencies]
arboard = "*"
dirs = "*"
image = { version = "*", default-features = false, features = ["png"] }
serde = { version = "*", features = ["derive"] }
toml = "*"
