[package]
name = "tauri_app"
version = "0.1.0"
edition = "2021"
publish = false

[dependencies]
cocoa = "0.26"
objc = "0.2"
tauri = { version = "2", default-features = false }
