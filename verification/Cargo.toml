[package]
name = "avio_core"
version = "0.1.0"
edition = "2021"
publish = false

[dependencies]
ffmpeg-next = "*"
rodio = "*"
num_cpus = "*"
