[package]
name = "pman"
version = "0.1.0"
edition = "2021"
publish = false

[dependencies]
nucleo-matcher = "*"
clap = { version = "4", features = ["derive"] }
crossterm = "*"
ratatui = "*"
thiserror = "*"
which = "*"
