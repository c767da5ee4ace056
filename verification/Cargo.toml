[package]
name = "exifview"
version = "0.1.0"
edition = "2021"
publish = false

[dependencies]
copypasta = "0.10"
crossterm = "0.28"
directories = "5"
open = "5"
ratatui = "0.29"
serde = { version = "1", features = ["derive"] }
serde_json = "1"
