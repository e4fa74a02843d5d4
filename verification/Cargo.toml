[package]
name = "rusty_svg2ico"
version = "0.1.0"
edition = "2021"
publish = false

[dependencies]
ico = "=0.3.0"
dark-light = "*"
rfd = { version = "=0.14.1", default-features = false, features = ["xdg-portal", "tokio"] }
svg_to_ico = "=1.3.1"
tempfile = "*"
tokio = { version = "1", features = ["rt-multi-thread"] }
