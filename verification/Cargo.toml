[package]
name = "security_scanner"
version = "0.1.0"
edition = "2021"
publish = false

[dependencies]
eframe = { version = "0.29", default-features = false, features = ["default_fonts", "glow", "x11"] }
open = "=5.4.5"
rfd = { version = "0.15", default-features = false, features = ["xdg-portal", "async-std"] }
ureq = "=2.12.1"
