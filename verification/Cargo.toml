[package]
name = "tui_audio"
version = "0.1.0"
edition = "2021"
publish = false

[dependencies]
clap = { version = "*", features = ["derive"] }
inquire = "*"
lofty = "*"
ratatui = "*"
ratatui-explorer = "*"
rodio = "*"
