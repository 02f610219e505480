[package]
name = "bootstrapper"
version = "0.1.0"
edition = "2021"
publish = false

[dependencies]
tauri = { version = "*", default-features = false }
tauri-plugin-log = { version = "*", default-features = false }
tauri-plugin-http = { version = "*", default-features = false }
