[package]
name = "career_tracker"
version = "0.1.0"
edition = "2021"
publish = false

[dependencies]
anyhow = "1"
chrono = { version = "0.4", features = ["serde"] }
crossterm = "0.27"
directories = "5"
open = "5"
ratatui = "0.26"
serde = { version = "1", features = ["derive"] }
serde_json = "1"
