[package]
name = "helsafe"
version = "0.1.0"
edition = "2021"
publish = false

[dependencies]
rusqlite = { version = "=0.40.2", features = ["bundled-sqlcipher"] }
dirs = "=7.0.0"
rpassword = "=7.5.4"
crossterm = "=0.25.0"
tui = "=0.19.0"
cli-tables = "=0.2.1"
