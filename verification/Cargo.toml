[package]
name = "smtc2web"
version = "0.1.0"
edition = "2021"
publish = false

[dependencies]
dirs = "=5.0.1"
mime_guess = "=2.0.5"
notify = "=6.1.1"
open = "=5.4.5"
rust-embed = { version = "=8.13.0", features = ["interpolate-folder-path"] }
serde = { version = "=1.0.229", features = ["derive"] }
systray = "=0.4.0"
tokio = { version = "=1.54.1", features = ["rt-multi-thread", "macros"] }
toml = "=0.8.23"
warp = "=0.3.7"
windows = { version = "=0.58.0", features = ["Foundation", "Media_Control", "Storage_Streams", "Win32_Foundation", "Win32_Security", "Win32_System_Console", "Win32_System_Threading", "Win32_UI_WindowsAndMessaging"] }
