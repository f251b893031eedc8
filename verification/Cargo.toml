[package]
name = "shortcut_core"
version = "0.1.0"
edition = "2021"
publish = false

[dependencies]
serde = { version = "*", features = ["derive"] }
serde_json = "*"
log = "*"
tokio = { version = "*", features = ["sync"] }
