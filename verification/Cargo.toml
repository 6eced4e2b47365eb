[package]
name = "cocoa-way"
version = "0.1.0"
edition = "2021"
publish = false

[dependencies]
gl = "0.14"
glutin = "0.31"
glutin-winit = "0.4"
image = { version = "0.24", default-features = false, features = ["png"] }
log = "0.4"
raw-window-handle = "0.5"
tracing-subscriber = { version = "0.3", features = ["env-filter"] }
winit = { version = "0.29", features = ["rwh_05"] }
