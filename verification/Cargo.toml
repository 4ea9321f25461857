[package]
name = "bird_player"
version = "0.1.0"
edition = "2021"
publish = false

[dependencies]
rb = "*"
rand = "0.8"
symphonia = "0.5"
rubato = "0.12"
