[package]
name = "fitness_tracker"
version = "0.1.0"
edition = "2021"
publish = false

[dependencies]
chrono = { version = "=0.4.45", features = ["serde"] }
time = "=0.3.55"
serde = { version = "=1.0.229", features = ["derive"] }
eframe = { version = "=0.31.1", default-features = false, features = ["default_fonts", "glow", "x11"] }
egui = "=0.31.1"
egui_extras = { version = "=0.31.1", features = ["image", "file"] }
image = { version = "=0.25.10", default-features = false, features = ["png", "jpeg"] }
