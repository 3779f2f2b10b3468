[package]
name = "chip8"
version = "0.1.0"
edition = "2021"
publish = false

[dependencies]
rand = "0.8"
clap = { version = "4", features = ["derive"] }
macroquad = { version = "0.4", features = ["audio"] }
tracing = "0.1"
tracing-subscriber = "0.3"
