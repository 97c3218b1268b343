[package]
name = "vacation"
version = "0.1.0"
edition = "2021"
publish = false

[dependencies]
anyhow = "1"
argh = "0.1"
gltf = { version = "=1.3.0", default-features = false, features = ["extras", "names", "utils", "KHR_texture_transform"] }
gltf-json = { version = "=1.3.0", features = ["extras", "names", "KHR_texture_transform"] }
serde_json = { version = "1", features = ["raw_value"] }
