[package]
name = "quest_scrcpy"
version = "0.1.0"
edition = "2021"
publish = false

[dependencies]
rayon = "=1.12.0"
image = { version = "=0.25.10", default-features = false, features = ["png"] }
anyhow = "=1.0.104"
crossbeam-channel = "=0.5.17"
egui = { version = "=0.37.0", default-features = false, features = ["default_fonts"] }
eframe = { version = "=0.37.0", default-features = false, features = ["default_fonts", "glow", "x11"] }
cpal = "=0.18.2"
virtualcam = "=1.0.0"
windows = { version = "=0.62.2", features = ["Win32_Foundation", "Win32_System_Diagnostics_ToolHelp"] }
