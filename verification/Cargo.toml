[package]
name = "rusticon"
version = "0.1.0"
edition = "2021"
publish = false

[dependencies]
terminal_style = "*"
crossterm = { version = "*", features = ["event-stream"] }
futures = "*"
futures-timer = "*"
image = { version = "*", default-features = false, features = ["png", "jpeg", "bmp", "gif"] }
