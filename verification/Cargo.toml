[package]
name = "reach_me_if_you_can"
version = "0.1.0"
edition = "2021"
publish = false

[dependencies]
macroquad = { version = "0.4", default-features = false }
nalgebra = "0.33"
rand = "0.8"
