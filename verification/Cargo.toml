[package]
name = "clockdate"
version = "0.1.0"
edition = "2021"
publish = false

[dependencies]
chrono = "*"
figlet-rs = "*"
toml = "*"
ratatui = "*"
crossterm = "*"
