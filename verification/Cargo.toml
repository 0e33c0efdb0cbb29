[package]
name = "shell_core"
version = "0.1.0"
edition = "2021"
publish = false

[dependencies]
log = "=0.4.34"
tauri = { version = "=2.12.5", default-features = false, features = ["wry"] }
tauri-plugin-store = { version = "2", default-features = false }
window-vibrancy = "=0.8.1"
