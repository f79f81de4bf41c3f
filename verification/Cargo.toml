[package]
name = "story_factory"
version = "0.1.0"
edition = "2021"
publish = false

[dependencies]
cosmwasm-std = "1.5"
cw721-base = "0.18"
cw-storage-plus = "1.2"
cw-utils = "1.0"
serde = { version = "1", features = ["derive"] }
thiserror = "1"
