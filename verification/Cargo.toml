[package]
name = "fairnes"
version = "0.1.0"
edition = "2021"
publish = false

[dependencies]
eframe = { version = "*", default-features = false, features = ["default_fonts", "glow", "persistence", "x11"] }
egui = "*"
env_logger = { version = "*", default-features = false }
serde = { version = "*", features = ["derive"] }
