[package]
name = "oatmeal"
version = "0.1.0"
edition = "2021"
publish = false

[dependencies]
anyhow = "1"
ratatui = { version = "0.26", default-features = false }
tokio = { version = "1", default-features = false, features = ["sync"] }
