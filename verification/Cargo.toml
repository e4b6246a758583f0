[package]
name = "pynput"
version = "0.1.0"
edition = "2021"
publish = false

[dependencies]
x11rb = { version = "0.13", features = ["record", "xtest"] }
evdev = "0.12"
windows = { version = "0.56", features = ["Win32_Foundation", "Win32_UI_Input_KeyboardAndMouse", "Win32_UI_WindowsAndMessaging", "Win32_System_Threading"] }
core-graphics = "0.23"
core-foundation = "0.9"
