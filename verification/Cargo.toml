[package]
name = "render_service"
version = "0.1.0"
edition = "2021"
publish = false

[dependencies]
anyhow = "=1.0.104"
axum = { version = "=0.7.9", features = ["macros", "multipart"] }
bytemuck = "=1.25.2"
glam = "=0.34.2"
image = { version = "=0.25.10", default-features = false, features = ["png"] }
sha2 = "=0.10.9"
tokio = { version = "=1.54.1", features = ["full"] }
tower = "=0.4.13"
tower_governor = "=0.4.3"
wgpu = "=0.19.4"
