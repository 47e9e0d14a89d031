[package]
name = "pizero_gadget_gamepads"
version = "0.1.0"
edition = "2021"
publish = false

[dependencies]
anyhow = "1"
env_logger = "*"
gilrs = "*"
log = "0.4"
scroll = "*"
signal-hook = "*"
