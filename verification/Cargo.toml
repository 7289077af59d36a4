[package]
name = "gabinator"
version = "0.1.0"
edition = "2021"
publish = false

[dependencies]
chrono = "0.4"
config = "0.14"
ctrlc = "3"
image = { version = "0.25", default-features = false, features = ["jpeg", "png"] }
local-ip-address = "*"
rusb = "0.9"
sysinfo = "*"
turbojpeg = { version = "1", features = ["image"] }
windows = { version = "0.58", features = ["Win32_Foundation", "Win32_Graphics_Gdi", "Win32_UI_WindowsAndMessaging"] }
xcb = "1"
