[package]
name = "screencaster"
version = "0.1.0"
edition = "2021"
publish = false

[dependencies]
bincode = "1.3"
image = { version = "0.25", default-features = false }
local-ip-address = "0.6"
global-hotkey = "0.6"
scrap = "0.5"
eframe = { version = "0.29", default-features = false, features = ["glow", "default_fonts", "x11"] }
