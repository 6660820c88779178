[package]
name = "win-way"
version = "0.1.0"
edition = "2021"
publish = false

[dependencies]
bytes = "1"
log = "0.4"
thiserror = "1"
env_logger = "0.11"
clap = { version = "4", features = ["derive"] }
tokio = { version = "1", features = ["rt-multi-thread", "macros", "process", "io-util", "sync", "time"] }
winit = { version = "0.30", default-features = false, features = ["rwh_06", "x11"] }
glutin = { version = "0.32", default-features = false, features = ["egl", "glx", "wgl", "x11"] }
glow = "0.16"
raw-window-handle = "0.6"
