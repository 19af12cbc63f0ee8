[package]
name = "kakapo"
version = "0.1.0"
edition = "2021"
publish = false

[dependencies]
windows = { version = "0.57", features = ["Win32_Foundation", "Win32_UI_Input_KeyboardAndMouse", "Win32_UI_WindowsAndMessaging"] }
