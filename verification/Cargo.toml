[package]
name = "tools_shell"
version = "0.1.0"
edition = "2021"
publish = false

[dependencies]
tauri = { version = "*", default-features = false }
