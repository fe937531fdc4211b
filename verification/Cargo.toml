[package]
name = "textamp"
version = "0.1.0"
edition = "2021"
publish = false

[dependencies]
unicode-width = "0.2"
rand = "0.8"
ratatui = "0.29"
crossterm = "0.28"
iced = { version = "0.13", default-features = false, features = ["tiny-skia", "canvas", "advanced"] }
