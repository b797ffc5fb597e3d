[package]
name = "batch_render"
version = "0.1.0"
edition = "2021"
publish = false

[dependencies]
glam = "0.22"
glium = "0.32"
egui = "0.20"
egui_glium = "0.20"
