[package]
name = "maple"
version = "0.1.0"
edition = "2021"
publish = false

[dependencies]
rand = "0.8"
fnv = "1.0"
thiserror = "1.0"
lazy_static = "1.4"
ash = "0.33"
windows = { version = "0.29", features = ["Win32_Foundation", "Win32_UI_WindowsAndMessaging", "Win32_System_LibraryLoader", "Win32_System_Diagnostics_Debug", "Win32_Graphics_Gdi"] }
