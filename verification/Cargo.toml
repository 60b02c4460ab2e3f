[package]
name = "herdr"
version = "0.7.5"
edition = "2021"
publish = false

[dependencies]
serde = { version = "1", features = ["derive"] }
serde_json = "1"
toml = "*"
redb = "*"
bincode = { version = "2", features = ["serde"] }
schemars = "*"
anyhow = "1"
tracing = "*"
crossterm = "*"
ratatui = "*"
headless_chrome = { version = "*", default-features = false }
image = { version = "*", default-features = false, features = ["jpeg"] }
viuer = "*"
interprocess = "*"
