[package]
name = "spiral_sketch"
version = "0.1.0"
edition = "2021"
publish = false

[dependencies]
nannou = "=0.19.0"
nannou_egui = "=0.19.0"
