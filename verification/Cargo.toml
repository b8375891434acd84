[package]
name = "music_cli"
version = "0.1.0"
edition = "2021"
publish = false

[dependencies]
anyhow = "1"
clap = { version = "4", features = ["derive"] }
crossbeam-channel = "0.5"
crossterm = "0.28"
dirs = "5"
fuzzy-matcher = "0.3"
lofty = "0.22"
rand = "0.9"
ratatui = "0.29"
rodio = "0.20"
serde = { version = "1", features = ["derive"] }
serde_json = "1"
walkdir = "2"
