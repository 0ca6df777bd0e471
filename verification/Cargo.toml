[package]
name = "jxr2uhdr"
version = "0.3.0"
edition = "2021"
publish = false

[dependencies]
anyhow = "1"
bytemuck = "1"
clap = { version = "4", features = ["derive"] }
env_logger = "*"
half = "2"
jpegxr = "*"
linear-srgb = "*"
log = "0.4"
ultrahdr = "*"
