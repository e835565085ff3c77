[package]
name = "cycle_helper"
version = "0.1.0"
edition = "2021"
publish = false

[dependencies]
regex = "=1.13.1"
unicode-width = "=0.2.3"
anyhow = "=1.0.104"
calamine = "=0.38.0"
chrono = "=0.4.45"
colored = "=3.1.1"
dialoguer = "=0.12.0"
rfd = { version = "=0.17.2", default-features = false, features = ["xdg-portal"] }
rust_xlsxwriter = "=0.102.0"
serde = { version = "=1.0.229", features = ["derive"] }
tokio = { version = "=1.54.1", features = ["rt-multi-thread", "macros", "fs", "sync"] }
toml = "=1.1.8"
