[package]
name = "now_playing"
version = "0.1.0"
edition = "2021"
publish = false

[dependencies]
eframe = { version = "*", default-features = false, features = ["glow", "x11", "default_fonts"] }
serde = { version = "*", features = ["derive"] }
toml = { version = "*", default-features = false, features = ["parse", "serde"] }
zbus = "*"
