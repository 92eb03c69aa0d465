[package]
name = "shader_reload"
version = "0.1.0"
edition = "2021"
publish = false

[dependencies]
naga = { version = "*", features = ["wgsl-in"] }
syntect = { version = "*", default-features = false, features = ["parsing", "yaml-load", "default-themes", "dump-load", "regex-fancy"] }
notify = "*"
wgpu = "*"
futures = "*"
bytemuck = { version = "*", features = ["derive"] }
