[package]
name = "rclip"
version = "0.1.0"
edition = "2021"
publish = false

[dependencies]
clap = "2.34"
copypasta = "0.8"
copypasta-ext = "0.4"
dirs = "4"
rustls = { version = "0.20", features = ["dangerous_configuration"] }
serde = { version = "1", features = ["derive"] }
tokio = { version = "1", features = ["full"] }
tokio-rustls = { version = "0.23", features = ["dangerous_configuration"] }
toml = "0.5"
