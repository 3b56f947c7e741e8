[package]
name = "mainboard"
version = "0.1.0"
edition = "2021"
publish = false

[dependencies]
fuzzy-matcher = "0.3"
sdl2 = { version = "0.36", features = ["ttf"] }
anyhow = "1"
thiserror = "1"
derive_more = "0.99"
