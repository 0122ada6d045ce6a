[package]
name = "ytdlp_gui"
version = "0.1.0"
edition = "2021"
publish = false

[dependencies]
serde = { version = "=1.0.229", features = ["derive"] }
serde_json = "=1.0.154"
tokio = { version = "=1.54.1", features = ["rt-multi-thread"] }
eframe = { version = "=0.22.0", default-features = false, features = ["glow", "default_fonts"] }
arboard = { version = "=3.7.0", default-features = false }
rfd = { version = "0.14", default-features = false, features = ["xdg-portal", "tokio"] }
