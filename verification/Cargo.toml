[package]
name = "bort-vk"
version = "0.1.0"
edition = "2021"
publish = false

[dependencies]
ash = "0.38"
raw-window-handle = "0.6"
log = "0.4"
bytemuck = "1"
