[package]
name = "desktop_clear_master"
version = "1.0.0"
edition = "2021"
publish = false

[dependencies]
windows = { version = "0.58", features = ["Win32_Foundation", "Win32_UI_WindowsAndMessaging", "Win32_Graphics_Gdi"] }
eframe = { version = "0.31", default-features = false, features = ["default_fonts", "glow", "x11"] }
