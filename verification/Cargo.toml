[package]
name = "mpu6886"
version = "0.1.0"
edition = "2021"
publish = false

[dependencies]
embedded-hal = "0.2"
libm = "0.2"
nalgebra = { version = "*", default-features = false }
