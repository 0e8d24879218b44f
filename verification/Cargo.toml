[package]
name = "write_pace"
version = "0.1.0"
edition = "2021"
publish = false

[dependencies]
words-count = "*"
clap = { version = "*", features = ["derive"] }
colored = "*"
notify-rust = "*"
