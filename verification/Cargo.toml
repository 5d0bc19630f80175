[package]
name = "klystron"
version = "0.1.0"
edition = "2021"
publish = false

[dependencies]
anyhow = "=1.0.104"
drop_bomb = "=0.1.5"
erupt = "=0.23.0"
gpu-alloc = "=0.6.2"
gpu-alloc-erupt = "=0.9.1"
slotmap = "=1.1.1"
winit = { version = "=0.30.13", features = ["rwh_05"] }
