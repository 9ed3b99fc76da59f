[package]
name = "solstice"
version = "0.1.0"
edition = "2021"
publish = false

[dependencies]
anyhow = "1"
chrono = "0.4"
chrono-tz = "0.10"
crossterm = "0.28"
dirs = "6"
oauth2 = { version = "5", default-features = false, features = ["reqwest-blocking"] }
ratatui = "0.29"
reqwest = { version = "0.12", default-features = false, features = ["blocking", "json"] }
rusqlite = { version = "0.32", features = ["bundled"] }
serde = { version = "1", features = ["derive"] }
serde_json = "1"
toml = "0.8"
