[package]
name = "debug_gui"
version = "0.1.0"
edition = "2021"
publish = false

[dependencies]
chsl = "=0.1.1"
sdl2 = { version = "=0.38.0", features = ["ttf"] }
