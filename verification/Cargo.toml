[package]
name = "power_watch"
version = "0.1.0"
edition = "2021"
publish = false

[dependencies]
windows = { version = "=0.58.0", features = ["Win32_Foundation", "Win32_System_Power", "Win32_UI_WindowsAndMessaging", "Win32_System_SystemServices"] }
