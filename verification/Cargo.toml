[package]
name = "solar_raster"
version = "0.1.0"
edition = "2021"
publish = false

[dependencies]
fastnoise-lite = "1"
minifb = "0.27"
nalgebra-glm = "0.18"
rand = "0.8"
