[package]
name = "video_encoder"
version = "0.1.0"
edition = "2021"
publish = false

[dependencies]
clap = { version = "4", features = ["derive"] }
crossterm = "0.28"
ratatui = "0.29"
thiserror = "1"
tokio = { version = "1", features = ["full"] }
ffmpeg-next = "7"
