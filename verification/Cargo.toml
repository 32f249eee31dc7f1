[package]
name = "gguf_launcher"
version = "0.1.0"
edition = "2021"
publish = false

[dependencies]
anyhow = "1"
clap = { version = "4", features = ["derive"] }
console = "0.15"
dialoguer = "0.11"
reqwest = { version = "0.11", features = ["blocking"] }
url = "2"
