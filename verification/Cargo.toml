[package]
name = "ferrum_player"
version = "0.1.0"
edition = "2021"
publish = false

[dependencies]
rand = "*"
rodio = "*"
souvlaki = "*"
lofty = "*"
walkdir = "*"
dirs = "*"
