[package]
name = "micro_arch"
version = "0.1.0"
edition = "2021"
publish = false

[dependencies]
bincode = "1.3"
eframe = "0.16"
once_cell = "1"
rfd = "0.6"
serde = { version = "1", features = ["derive"] }
