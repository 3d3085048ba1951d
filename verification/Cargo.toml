[package]
name = "fractal_view"
version = "0.1.0"
edition = "2021"
publish = false

[dependencies]
bytemuck = "=1.25.2"
futures = "0.3"
iced_wgpu = "=0.14.0"
iced_widget = "=0.14.2"
iced_winit = { version = "=0.14.1", default-features = false, features = ["x11"] }
