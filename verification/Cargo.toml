[package]
name = "audio_meta"
version = "0.1.0"
edition = "2021"
publish = false

[dependencies]
base64 = "0.22"
lofty = "0.22"
