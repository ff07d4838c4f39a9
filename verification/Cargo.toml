[package]
name = "glfwproject"
version = "0.1.0"
edition = "2021"
publish = false

[dependencies]
gl = "0.14"
glfw = "*"
log = "0.4"
log4rs = "*"
opengles = "*"
