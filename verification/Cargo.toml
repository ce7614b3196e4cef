[package]
name = "codeptit"
version = "0.1.0"
edition = "2021"
publish = false

[dependencies]
anyhow = "1"
clap = { version = "4", features = ["derive"] }
dialoguer = "0.11"
dirs = "5"
figment = { version = "0.10", features = ["toml"] }
humantime = "2"
reqwest = { version = "0.12", default-features = false, features = ["blocking", "json", "multipart", "rustls-tls"] }
rpassword = "7"
serde = { version = "1", features = ["derive"] }
serde_with = "3"
toml = "0.8"
