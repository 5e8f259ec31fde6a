[package]
name = "player_core"
version = "0.1.0"
edition = "2021"
publish = false

[dependencies]
ffmpeg-next = "*"
cpal = "*"
url = "*"
