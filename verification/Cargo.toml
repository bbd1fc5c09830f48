[package]
name = "incubator"
version = "0.1.0"
edition = "2021"
publish = false

[dependencies]
rand = "*"
regex = "*"
unicode-ident = "*"
serde = { version = "*", features = ["derive"] }
serde_json = "*"
serde_yaml = "*"
toml = "*"
chrono = { version = "*", features = ["serde"] }
url = { version = "*", features = ["serde"] }
uuid = { version = "*", features = ["serde"] }
humantime-serde = "*"
pin-project = "*"
