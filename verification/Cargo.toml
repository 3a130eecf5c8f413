[package]
name = "gameboy_rs"
version = "0.1.0"
edition = "2021"
publish = false

[dependencies]
rand = "0.8"
sdl2 = "0.34"
gl = "0.14"
imgui = "0.7"
imgui-sdl2 = "0.14"
imgui-opengl-renderer = "0.11"
nfd2 = "*"
