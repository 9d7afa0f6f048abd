[package]
name = "texteditor"
version = "0.1.0"
edition = "2021"
publish = false

[dependencies]
ratatui = "0.29"
crossterm = "0.28"
arboard = { version = "3", default-features = false }
serde = { version = "1", features = ["derive"] }
thiserror = "2"
