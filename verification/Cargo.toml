[package]
name = "audio_browser"
version = "0.1.0"
edition = "2021"
publish = false

[dependencies]
clap = { version = "*", features = ["derive"] }
ratatui = "*"
rodio = "*"
