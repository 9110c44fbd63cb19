[package]
name = "kvlint"
version = "0.2.0"
edition = "2021"
publish = false

[dependencies]
regex = "1"
serde = { version = "1", features = ["derive"] }
serde_json = "1"
toml = "0.8"
walkdir = "2"
clap = { version = "4", features = ["derive"] }
colored = "2"
inquire = "0.7"
