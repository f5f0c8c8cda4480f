[package]
name = "glazewm_window_info"
version = "0.1.0"
edition = "2021"
publish = false

[dependencies]
serde_json = "=1.0.154"
eframe = { version = "=0.37.0", default-features = false, features = ["default_fonts", "glow"] }
global-hotkey = "=0.9.0"
tray-icon = "=0.26.1"
single-instance = "=0.3.3"
