[package]
name = "tform"
version = "0.1.0"
edition = "2021"

[dependencies]
regex = "=1.13.1"
unicode-width = "=0.2.0"
crossterm = "=0.28.1"
ratatui = "=0.29.0"
serde_json = { version = "=1.0.154", features = ["preserve_order"] }
