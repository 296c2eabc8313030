[package]
name = "gantt_plan"
version = "0.1.0"
edition = "2021"
publish = false

[dependencies]
egui = "=0.32.3"
egui_plot = "=0.33.0"
eframe = { version = "=0.32.3", default-features = false, features = ["glow", "x11", "default_fonts"] }
env_logger = "=0.11.11"
