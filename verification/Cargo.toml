[package]
name = "mythos_relay"
version = "0.1.0"
edition = "2021"
publish = false

[dependencies]
tauri = { version = "2", default-features = false, features = ["test"] }
tauri-plugin-deep-link = { version = "2", default-features = false }
