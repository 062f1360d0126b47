[package]
name = "tone_mixer"
version = "0.1.0"
edition = "2021"
publish = false

[dependencies]
iced = "0.2"
rodio = "0.15"
