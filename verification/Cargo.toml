[package]
name = "veyra"
version = "0.1.0"
edition = "2021"
publish = false

[dependencies]
cgmath = "=0.18.0"
libc = "=0.2.191"
serde = { version = "=1.0.229", features = ["derive"] }
smithay = { version = "=0.7.0", default-features = false, features = ["backend_drm", "backend_egl", "backend_gbm", "backend_session", "backend_winit", "desktop", "renderer_gl", "wayland_frontend", "xwayland"] }
toml = "=0.8.23"
tracing = "=0.1.44"
