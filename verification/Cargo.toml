[package]
name = "layer_panel"
version = "0.1.0"
edition = "2021"
publish = false

[dependencies]
egui = "=0.37.0"
egui_glow = "=0.37.0"
glow = "=0.17.0"
khronos-egl = { version = "=6.0.0", features = ["dynamic"] }
smithay-client-toolkit = "=0.21.1"
wayland-egl = "=0.32.11"

[dev-dependencies]
xkeysym = "=0.2.1"
