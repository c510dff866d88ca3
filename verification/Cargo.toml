[package]
name = "padbind"
version = "0.1.0"
edition = "2021"
publish = false

[dependencies]
clap = { version = "4", features = ["derive"] }
enigo = { version = "*", features = ["serde"] }
sdl2 = "*"
serde = { version = "1", features = ["derive"] }
serde_json = "1"
