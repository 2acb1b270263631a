[package]
name = "muka-taskswitch"
version = "0.1.0"
edition = "2021"
publish = false

[dependencies]
global-hotkey = "0.6"
egui = "0.31"
egui_glow = { version = "0.31", features = ["winit"] }
egui-winit = "0.31"
glow = "0.16"
glutin = "0.32"
glutin-winit = "0.5"
winit = "0.30"
tray-icon = "0.20"
windows = { version = "0.61", features = ["Win32_Foundation", "Win32_System_Threading", "Win32_UI_WindowsAndMessaging", "Win32_Graphics_Dwm", "Win32_System_Com", "Win32_UI_Shell", "Win32_UI_HiDpi", "Win32_System_Registry", "Win32_Security"] }
directories = "6"
serde = { version = "1", features = ["derive"] }
serde_json = "1"
