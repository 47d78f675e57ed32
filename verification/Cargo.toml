[package]
name = "api"
version = "0.1.0"
edition = "2021"
publish = false

[dependencies]
bcrypt = "*"
slug = "*"
unidecode = "*"
uuid = "*"
validator = { version = "*", features = ["derive"] }
serde = { version = "1", features = ["derive"] }
serde_json = "1"
