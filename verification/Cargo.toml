[package]
name = "rifthold"
version = "0.1.0"
edition = "2021"
publish = false

[dependencies]
base64 = "*"
image = { version = "*", default-features = false, features = ["jpeg"] }
serde = { version = "*", features = ["derive"] }
serde_json = "*"
dirs = "*"
toml = "*"
rayon = "*"
