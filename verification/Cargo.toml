[package]
name = "render_core"
version = "0.1.0"
edition = "2021"
publish = false

[dependencies]
bincode = "1"
gl = "0.14"
image = { version = "0.24", default-features = false, features = ["png", "jpeg"] }
nalgebra = "*"
nalgebra-glm = "*"
palette = "*"
tobj = "*"
