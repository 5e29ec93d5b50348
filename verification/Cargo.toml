[package]
name = "vibe_emu"
version = "0.1.0"
edition = "2021"
publish = false

[dependencies]
bytemuck = "1"
png = "0.18"
log = "0.4"
env_logger = { version = "0.11", default-features = false }
clap = { version = "4", default-features = false, features = ["std", "derive", "help", "usage"] }
crossbeam-channel = "0.5"
winit = { version = "0.28", default-features = false, features = ["x11"] }
imgui = "0.11"
imgui-winit-support = "0.11"
