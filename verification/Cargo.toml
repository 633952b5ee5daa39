[package]
name = "mandelbrot_shader"
version = "0.1.0"
edition = "2021"
publish = false
