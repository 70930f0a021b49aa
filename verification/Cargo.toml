[package]
name = "sparagne_tui"
version = "0.1.0"
edition = "2021"
publish = false

[dependencies]
chrono = "0.4"
chrono-tz = "0.10"
uuid = "1"
ratatui = { version = "0.29", default-features = false }
