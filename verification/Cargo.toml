[package]
name = "window_vibrancy"
version = "0.1.0"
edition = "2021"
publish = false

[dependencies]
raw-window-handle = "=0.6.2"
windows-version = "=0.1.0"
windows-sys = { version = "=0.60.2", features = ["Win32_Foundation", "Win32_Graphics_Dwm", "Win32_Graphics_Gdi", "Win32_System_LibraryLoader"] }
