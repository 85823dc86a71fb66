[package]
name = "melon_rs"
version = "0.1.0"
edition = "2021"
publish = false

[dependencies]
byteorder = "=1.5.0"
chrono = { version = "=0.4.45", features = ["serde"] }
clap = { version = "=4.6.7", features = ["derive"] }
cxx = "=1.0.205"
glium = "=0.32.1"
once_cell = "=1.21.4"
rodio = { version = "0.14", default-features = false }
serde = { version = "=1.0.229", features = ["derive"] }
serde_yaml = "=0.9.34"
tokio = { version = "=1.54.1", default-features = false, features = ["rt-multi-thread", "macros", "sync", "time"] }
winit = { version = "=0.27.5", default-features = false, features = ["serde", "x11"] }
