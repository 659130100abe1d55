[package]
name = "sonora"
version = "0.1.0"
edition = "2021"
publish = false

[dependencies]
dirs = "*"
log = "*"
raw-window-handle = "*"
rustls = { version = "*", default-features = false, features = ["ring", "std"] }
tokio = { version = "*", features = ["sync"] }
windows-sys = { version = "*", features = ["Win32_Foundation", "Win32_Graphics_Dwm", "Win32_Graphics_Gdi", "Win32_UI_Shell", "Win32_UI_WindowsAndMessaging"] }
