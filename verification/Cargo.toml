[package]
name = "stellui"
version = "0.1.0"
edition = "2021"
publish = false

[dependencies]
anyhow = "1"
astronomy-engine-bindings = "*"
chrono = "0.4"
chrono-tz = "0.10"
crossterm = "0.28"
image = { version = "0.25", default-features = false }
ratatui = "0.29"
serde = { version = "1", features = ["derive"] }
tiny-skia = "0.11"
toml = "0.8"
tzf-rs = "*"
ureq = { version = "2", features = ["json"] }
