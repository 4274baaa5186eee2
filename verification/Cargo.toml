[package]
name = "index_config"
version = "0.1.0"
edition = "2021"
publish = false

[dependencies]
figment = { version = "0.10", features = ["toml", "env", "test"] }
camino = { version = "1", features = ["serde1"] }
serde = { version = "1", features = ["derive"] }
serde_with = "3"
thiserror = "2"
derive_more = { version = "1", features = ["display"] }
torrust-index-located-error = "*"
tokio = { version = "1", features = ["sync", "macros", "rt"] }
