[package]
name = "openconnect_vpn_gui"
version = "0.1.0"
edition = "2021"
publish = false

[dependencies]
zeroize = "1"
eframe = { version = "0.31", default-features = false, features = ["glow", "x11", "default_fonts"] }
egui_extras = { version = "0.31", default-features = false }
