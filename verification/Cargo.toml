[package]
name = "t-meter"
version = "0.1.0"
edition = "2021"
publish = false

[dependencies]
anyhow = "1"
chrono = "0.4"
crossterm = "*"
directories = "*"
open = "*"
ratatui = "*"
serde = { version = "1", features = ["derive"] }
toml = "*"
