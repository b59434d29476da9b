[package]
name = "ndi_camera"
version = "0.1.0"
edition = "2021"
publish = false

[dependencies]
yuvutils-rs = "*"
turbojpeg = "*"
libcamera = "*"
ndi = "*"
clap = { version = "*", features = ["derive"] }
color-eyre = "*"
tracing = "*"
tracing-subscriber = { version = "*", features = ["env-filter"] }
