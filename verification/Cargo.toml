[package]
name = "audio-select"
version = "0.1.0"
edition = "2021"
publish = false

[dependencies]
confy = "*"
druid = "*"
libpulse-binding = "*"
mouse_position = "*"
num = "*"
serde = { version = "1", features = ["derive"] }
