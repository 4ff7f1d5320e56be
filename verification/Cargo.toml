[package]
name = "desktop_pet"
version = "0.1.0"
edition = "2021"
publish = false

[dependencies]
image = { version = "0.24", default-features = false, features = ["png", "jpeg", "bmp"] }
rand = "0.8"
serde = { version = "1", features = ["derive"] }
serde_json = "1"
windows = { version = "0.56", features = ["Win32_Foundation", "Win32_Graphics_Gdi", "Win32_UI_WindowsAndMessaging", "Win32_UI_Input_KeyboardAndMouse", "Win32_System_Performance", "Win32_System_Threading"] }
rfd = { version = "0.14", default-features = false, features = ["xdg-portal", "tokio"] }
macroquad = "0.4"
