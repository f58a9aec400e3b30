[package]
name = "rnes"
version = "0.1.0"
edition = "2021"
publish = false

[dependencies]
anyhow = "1"
arrayvec = "0.7"
bitflags = "2"
clap = { version = "4", features = ["derive"] }
cpal = "*"
futures = "0.3"
gilrs = "*"
pixels = "*"
winit = "0.29"
winit_input_helper = "0.15"
