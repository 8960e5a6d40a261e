[package]
name = "meiti"
version = "0.1.0"
edition = "2021"
publish = false

[dependencies]
semver = "1"
url = "2"
directories = "*"
libloading = "*"
serde = { version = "1", features = ["derive"] }
serde_json = "1"
clap = { version = "4", features = ["derive"] }
figment = { version = "0.10", features = ["toml"] }
toml = "*"
tracing = "0.1"
tracing-subscriber = "0.3"
rocket = "0.5"
