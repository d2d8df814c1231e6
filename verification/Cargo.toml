[package]
name = "glutin_glx"
version = "0.1.0"
edition = "2021"
publish = false

[dependencies]
glutin_glx_sys = "0.1"
libc = "0.2"
winit = "0.19"
