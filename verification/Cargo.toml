[package]
name = "glutin_shell"
version = "0.1.0"
edition = "2021"
publish = false

[dependencies]
euclid = "=0.17.3"
gleam = "=0.6.19"
glutin = "=0.21.2"
log = "=0.4.35"
osmesa-sys = "=0.1.2"
tinyfiledialogs = "=3.9.1"
url = "=2.5.8"
winit = "=0.19.5"
