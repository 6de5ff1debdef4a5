[package]
name = "scene_engine"
version = "0.1.0"
edition = "2021"
publish = false

[dependencies]
serde_json = "1"
image = { version = "0.25", default-features = false, features = ["png", "jpeg"] }
tobj = "4"
gltf = "1"
anyhow = "1"
log = "0.4"
env_logger = { version = "0.11", default-features = false }
