[package]
name = "viewer"
version = "0.1.0"
edition = "2021"
publish = false

[dependencies]
anyhow = "1"
rand = "=0.8.8"
rfd = { version = "0.17", default-features = false, features = ["xdg-portal"] }
three-d = { version = "0.17", features = ["egui-gui"] }
three-d-asset = { version = "0.7", features = ["gltf", "obj", "hdr", "png", "jpeg"] }
tokio = { version = "1", features = ["macros", "rt-multi-thread"] }
