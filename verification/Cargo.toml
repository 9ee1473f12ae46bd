[package]
name = "typing_trainer"
version = "0.1.0"
edition = "2021"
publish = false

[dependencies]
crossterm = "=0.27.0"
rand = "=0.8.8"
ratatui = "0.25"
