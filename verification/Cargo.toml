[package]
name = "dwarf_game"
version = "0.1.0"
edition = "2021"
publish = false

[dependencies]
amethyst = { version = "=0.15.3", default-features = false, features = ["renderer", "vulkan"] }
serde = { version = "=1.0.229", features = ["derive"] }
lazy_static = "=1.5.1"
failure = "=0.1.8"
glsl-layout = "=0.3.2"
specs-derive = "=0.4.1"
log = "=0.4.35"
uuid = { version = "0.8", features = ["v4"] }
