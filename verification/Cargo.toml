[package]
name = "win_tz"
version = "0.1.0"
edition = "2021"
publish = false

[dependencies]
serde = { version = "*", features = ["derive"] }
serde_json = "*"
tinystr = "*"
windows-sys = { version = "*", features = ["Win32_Foundation", "Win32_System_Time", "Win32_Globalization"] }
