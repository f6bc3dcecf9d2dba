[package]
name = "snake_game"
version = "0.1.0"
edition = "2021"
publish = false

[dependencies]
rand = "*"
piston = "*"
pistoncore-glutin_window = "*"
piston2d-graphics = "*"
piston2d-opengl_graphics = "*"
