[package]
name = "app_resolver"
version = "0.1.0"
edition = "2021"
publish = false

[dependencies]
windows-sys = { version = "*", features = ["Win32_Foundation", "Win32_System_Registry", "Win32_System_Threading"] }
