[package]
name = "robot_algorithms"
version = "0.1.0"
edition = "2021"
publish = false

[dependencies]
log = "0.4"
nalgebra = { version = "0.33", default-features = false, features = ["std"] }
paste = "1"
smallvec = "1"
