[package]
name = "fuzzy_finder"
version = "0.1.0"
edition = "2021"
publish = false

[dependencies]
nucleo = "0.5"
ignore = "0.4"
clap = { version = "4", features = ["derive"] }
crossterm = "0.28"
