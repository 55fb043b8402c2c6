[package]
name = "golf"
version = "0.1.0"
edition = "2021"
publish = false

[dependencies]
geng = { version = "=0.13.0", default-features = false }
gltf = "1"
anyhow = "1"
