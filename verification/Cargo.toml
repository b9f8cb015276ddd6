[package]
name = "nebulon_monsters"
version = "0.1.0"
edition = "2021"
publish = false

[dependencies]
gl = "0.14"
glam = "0.29"
image = { version = "0.25", default-features = false, features = ["png"] }
sdl2 = { version = "0.37", features = ["mixer"] }
serde = { version = "1", features = ["derive"] }
toml = "0.8"
