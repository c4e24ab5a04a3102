[package]
name = "chust8"
version = "0.1.0"
edition = "2021"
publish = false

[dependencies]
arrayvec = "0.7"
num-traits = "0.2"
sdl2 = "*"

[dev-dependencies]
rand = "0.7"
