[package]
name = "galaxy_tui"
version = "0.1.0"
edition = "2021"
publish = false

[dependencies]
crossterm = "=0.28.1"
ratatui = "=0.29.0"
dotenv = "=0.15.0"
