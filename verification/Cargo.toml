[package]
name = "battery_notification"
version = "0.1.0"
edition = "2021"
publish = false

[dependencies]
battery = "*"
winapi = { version = "*", features = ["winuser"] }
