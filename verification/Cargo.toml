[package]
name = "marlua"
version = "0.1.0"
edition = "2021"
publish = false

[dependencies]
femtovg = { version = "=0.7.1", features = ["glutin"] }
glutin = "=0.30.10"
glutin-winit = "=0.3.0"
raw-window-handle = "=0.5.2"
rlua = "=0.19.8"
spin_sleep = "=1.3.3"
winit = "=0.28.7"
