[package]
name = "tfkosmos"
version = "0.1.0"
edition = "2021"
publish = false

[dependencies]
urlencoding = "2"
serde = { version = "1", features = ["derive"] }
serde_json = "1"
minijinja = "2"
anyhow = "1"
clap = { version = "4", features = ["derive"] }
