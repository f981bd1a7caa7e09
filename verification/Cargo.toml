[package]
name = "delphos"
version = "0.1.0"
edition = "2021"
publish = false

[dependencies]
wgpu = "=30.0.1"
smithay-client-toolkit = "=0.21.1"
wayland-client = "=0.31.15"
bon = "=3.10.3"
bytemuck = { version = "=1.25.2", features = ["derive"] }
image = { version = "=0.24.9", default-features = false }
asefile = "=0.3.8"
log = "=0.4.35"
env_logger = "=0.11.11"
tokio = { version = "=1.54.1", features = ["macros", "rt-multi-thread"] }
