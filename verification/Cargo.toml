[package]
name = "azvault"
version = "0.1.0"
edition = "2021"
publish = false

[dependencies]
url = "*"
chrono = "*"
serde = { version = "*", features = ["derive"] }
serde_json = "*"
keyring = "*"
reqwest = { version = "*", default-features = false, features = ["blocking", "json", "rustls-tls"] }
