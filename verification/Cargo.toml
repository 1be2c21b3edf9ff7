[package]
name = "hello_canvas"
version = "0.1.0"
edition = "2021"
publish = false

[dependencies]
glium = "=0.36.0"
glutin = "=0.32.3"
rusttype = "=0.9.3"
