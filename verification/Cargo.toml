[package]
name = "player_controller"
version = "0.1.0"
edition = "2021"
publish = false

[dependencies]
fyrox = "0.31"
