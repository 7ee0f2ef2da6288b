[package]
name = "tsdelay"
version = "0.1.0"
edition = "2021"
publish = false

[dependencies]
ffmpeg-sys = "*"
libc = "0.2"
structopt = "0.2"
