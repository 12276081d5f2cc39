[package]
name = "converter_desk"
version = "0.1.0"
edition = "2021"
publish = false

[dependencies]
url = "=2.5.8"
serde_json = "=1.0.154"
ureq = "=3.5.1"
dirs = "=7.0.0"
eframe = { version = "=0.37.0", default-features = false, features = ["glow", "x11", "default_fonts"] }
egui_extras = { version = "=0.37.0", default-features = false, features = ["image"] }
rfd = { version = "=0.17.2", default-features = false, features = ["xdg-portal"] }
