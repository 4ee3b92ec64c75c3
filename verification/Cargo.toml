[package]
name = "render_core"
version = "0.1.0"
edition = "2021"
publish = false

[dependencies]
blade-graphics = "=0.6.0"
blade-macros = "=0.3.0"
bytemuck = { version = "=1.25.2", features = ["derive"] }
glam = "=0.29.3"
winit = { version = "=0.30.13", default-features = false, features = ["x11", "rwh_06"] }
