[package]
name = "logview"
version = "0.1.0"
edition = "2021"
publish = false

[dependencies]
ansi-to-tui = "7"
ratatui = { version = "0.29", default-features = false }

[dev-dependencies]
regex = "1"
