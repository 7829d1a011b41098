[package]
name = "input_hook"
version = "0.1.0"
edition = "2021"
publish = false

[dependencies]
anyhow = "1"
once_cell = "1"
windows = { version = "*", default-features = false, features = ["Win32_Foundation", "Win32_UI_WindowsAndMessaging"] }
