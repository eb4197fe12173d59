[package]
name = "telescope"
version = "0.1.0"
edition = "2021"
publish = false

[dependencies]
color-eyre = "0.6.5"
ratatui = "0.28.1"
rust_search = "2.1.0"
