[package]
name = "iracing_broadcast"
version = "0.1.0"
edition = "2021"
publish = false

[dependencies]
bitflags = "=2.13.2"
thiserror = "=2.0.21"
windows-core = "=0.62.2"
windows = { version = "=0.62.2", features = ["Win32_Foundation", "Win32_UI_WindowsAndMessaging"] }
