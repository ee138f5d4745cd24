[package]
name = "now_playing"
version = "0.1.0"
edition = "2021"
publish = false

[dependencies]
windows = { version = "=0.58.0", features = ["Media_Control", "Foundation"] }
clipboard-win = "=5.4.1"
