[package]
name = "ffmtrans"
version = "0.1.0"
edition = "2021"
publish = false

[dependencies]
crossbeam-channel = "*"
serde = { version = "*", features = ["derive"] }
actix-web = "*"
actix-cors = "*"
ffmpeg-next = "*"
ffmpeg-sys-next = "*"
