[package]
name = "void_editor"
version = "0.1.0"
edition = "2021"
publish = false

[dependencies]
indexmap = "2"
rustc-hash = "2"
configparser = "3"
anyhow = "1"
pollster = "0.4"
vello = "*"
winit = "0.30"
