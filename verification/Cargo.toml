[package]
name = "glkit"
version = "0.1.0"
edition = "2021"
publish = false

[dependencies]
glam = "0.21"
glutin = "0.29"
image = { version = "0.24", default-features = false, features = ["jpeg", "png"] }
log = "0.4"
simplelog = "0.12"
