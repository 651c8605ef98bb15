[package]
name = "gameboy"
version = "0.1.0"
edition = "2021"
publish = false

[dependencies]
pretty-hex = "=0.4.2"
clap = { version = "=4.6.7", features = ["derive"] }
sdl2 = "=0.38.0"
spin_sleep = "=1.3.3"
