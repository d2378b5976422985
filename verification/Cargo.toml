[package]
name = "pano-monitor"
version = "0.1.0"
edition = "2021"

[dependencies]
crossbeam = "0.8"
eframe = { version = "0.31", default-features = false, features = ["default_fonts", "glow", "x11"] }
egui = "0.31"
env_logger = "0.11"
gstreamer = "0.23"
gstreamer-app = "0.23"
log = "0.4"
