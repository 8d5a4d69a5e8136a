[package]
name = "smart_lock_cursor"
version = "0.1.0"
edition = "2021"
publish = false

[dependencies]
ctrlc = "3"
windows = { version = "0.58", features = ["Win32_Foundation", "Win32_Graphics_Gdi", "Win32_UI_WindowsAndMessaging"] }
