[package]
name = "gb_emu"
version = "0.1.0"
edition = "2021"
publish = false

[dependencies]
anyhow = "1"
clap = { version = "4", features = ["derive"] }
env_logger = "0.10"
pixels = "0.13"
winit = "0.28"
