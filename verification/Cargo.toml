[package]
name = "vim_esc"
version = "0.1.0"
edition = "2021"
publish = false

[dependencies]
device_query = "=4.0.1"
enigo = "=0.6.1"
open = "=5.4.5"
tray-item = "=0.10.0"
libc = "=0.2.191"
core-foundation = "=0.10.1"
windows = { version = "=0.62.2", features = ["Win32_Foundation", "Win32_UI_Input_Ime", "Win32_UI_Input_KeyboardAndMouse", "Win32_UI_WindowsAndMessaging"] }
