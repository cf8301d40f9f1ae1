[package]
name = "audio_redirect"
version = "0.1.0"
edition = "2021"
publish = false

[dependencies]
cpal = "0.13"
structopt = "0.3"
