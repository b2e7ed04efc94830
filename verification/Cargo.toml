[package]
name = "weather_app_lib"
version = "0.1.0"
edition = "2021"
publish = false

[dependencies]
tauri = { version = "2", default-features = false }
tauri-plugin-window-state = { version = "2", default-features = false }
