[package]
name = "spirv-cross2"
version = "0.1.0"
edition = "2021"
publish = false

[dependencies]
bytemuck = { version = "=1.25.2", features = ["must_cast"] }
spirv-cross-sys = "=0.7.4"
static_assertions = "=1.1.0"
