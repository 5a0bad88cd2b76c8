[package]
name = "parallax"
version = "0.1.0"
edition = "2021"
publish = false

[dependencies]
num = "*"
gl = "*"
glfw = "*"
csv = "*"
image = { version = "*", default-features = false, features = ["png"] }
