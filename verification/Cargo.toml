[package]
name = "netx"
version = "0.1.0"
edition = "2021"
publish = false

[dependencies]
anyhow = "1"
chrono = "0.4"
crossterm = "*"
glib = "0.18"
gtk = "0.18"
ratatui = "*"
serde = { version = "1", features = ["derive"] }
toml = "*"
tray-icon = "*"
