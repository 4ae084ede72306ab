[package]
name = "tweak_shader_ae"
version = "0.1.0"
edition = "2021"
publish = false

[dependencies]
glsl = "=7.0.0"
bincode = "=1.3.3"
serde = { version = "1", features = ["derive"] }
tweak_shader = "=0.6.1"
after-effects = "=0.2.1"
after-effects-sys = "=0.2.1"
homedir = "=0.3.6"
pollster = "=0.3.0"
rfd = "=0.14.1"
