[package]
name = "webcam_recorder"
version = "0.1.0"
edition = "2021"
publish = false

[dependencies]
gstreamer = "=0.20.7"
