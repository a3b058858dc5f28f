[package]
name = "mullvad_tui"
version = "0.1.0"
edition = "2021"
publish = false

[dependencies]
ansi-to-tui = "*"
chrono = "*"
ratatui = { version = "*", features = ["unstable-rendered-line-info"] }
tracing = "*"
tui-globe = "*"
