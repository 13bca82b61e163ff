[package]
name = "zephyr"
version = "0.1.0"
edition = "2021"
publish = false

[dependencies]
regex = "*"
clap = { version = "*", features = ["derive"] }
color-eyre = "*"
notify = "*"
notify-debouncer-mini = "*"
walkdir = "*"
scraper = "*"
