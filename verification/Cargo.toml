[package]
name = "rust_vulkan"
version = "0.1.0"
edition = "2021"
publish = false

[dependencies]
ash = "0.38"
ash-window = "0.13"
raw-window-handle = "0.6"
log = "0.4"
env_logger = "0.11"
