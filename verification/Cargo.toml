[package]
name = "video_encoder"
version = "0.1.0"
edition = "2021"
publish = false

[dependencies]
crossbeam = "*"
