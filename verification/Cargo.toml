[package]
name = "hachimi_installer"
version = "0.1.0"
edition = "2021"
publish = false

[dependencies]
bsdiff = "*"
pelite = "*"
steamlocate = "*"
registry = "*"
windows = { version = "0.58", default-features = false, features = ["Win32_Foundation", "Win32_System_Com", "Win32_System_Diagnostics_ToolHelp", "Win32_UI_Shell", "Win32_UI_Shell_Common", "Win32_UI_WindowsAndMessaging"] }
