[package]
name = "achievement_hunter"
version = "0.1.0"
edition = "2021"
publish = false

[dependencies]
anyhow = "1"
chrono = { version = "0.4", features = ["serde"] }
clap = { version = "4", features = ["derive"] }
comfy-table = "7"
config = { version = "0.14", default-features = false, features = ["toml"] }
dialoguer = { version = "0.11", features = ["fuzzy-select"] }
reqwest = { version = "0.12", features = ["blocking", "json"] }
serde = { version = "1", features = ["derive"] }
