[package]
name = "ani_link"
version = "0.1.0"
edition = "2021"
publish = false

[dependencies]
fuzzy-matcher = "*"
ratatui = "=0.29.0"
reqwest = { version = "0.12", default-features = false, features = ["blocking", "cookies", "rustls-tls"] }
regex = "*"
serde = { version = "*", features = ["derive"] }
toml = "*"
dirs = "*"
figment = { version = "*", features = ["toml"] }
notify-rust = "*"
