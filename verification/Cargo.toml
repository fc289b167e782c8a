[package]
name = "techno_sutra"
version = "0.1.0"
edition = "2021"
publish = false

[dependencies]
bevy = { version = "=0.17.3", default-features = false, features = ["std", "bevy_log", "bevy_state", "bevy_ui", "bevy_window"] }
wasm-bindgen = "0.2"
web-sys = { version = "0.3", features = ["History", "Location", "Storage", "Window"] }
