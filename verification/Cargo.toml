[package]
name = "banana_man"
version = "0.1.0"
edition = "2021"
publish = false

[dependencies]
quad-rand = "0.2"
macroquad = "0.3"
imagesize = "0.10"
libm = "0.2"
once_cell = "1"
