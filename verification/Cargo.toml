[package]
name = "sculpt_core"
version = "0.1.0"
edition = "2021"
publish = false

[dependencies]
rapier3d = "=0.36.0"
csgrs = { version = "=0.15.2", default-features = false, features = ["f64"] }
nalgebra = "=0.33.3"
