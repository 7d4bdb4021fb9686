[package]
name = "terminal_games"
version = "0.1.0"
edition = "2021"
publish = false

[dependencies]
rand = "0.8"
crossterm = "0.22"
tui = "0.17"
