[package]
name = "kiosk-browser"
version = "0.1.0"
edition = "2021"
publish = false

[dependencies]
clap = { version = "4", features = ["derive"] }
dirs = "5"
env_logger = "0.11"
evdev = "0.13"
log = "0.4"
url = "2"
x11 = { version = "2", features = ["xlib"] }
windows = { version = "0.58", features = ["Win32_Foundation", "Win32_UI_WindowsAndMessaging", "Win32_UI_Input_KeyboardAndMouse"] }
