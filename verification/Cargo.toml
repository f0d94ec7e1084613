[package]
name = "aurora"
version = "0.1.0"
edition = "2021"
publish = false

[dependencies]
smithay = { version = "=0.5.1", default-features = false, features = ["desktop", "wayland_frontend", "renderer_gl", "backend_winit", "backend_egl", "backend_drm"] }
rand = "=0.8.8"
tracing = "0.1"
tracing-subscriber = { version = "0.3", features = ["env-filter"] }
profiling = "1"
