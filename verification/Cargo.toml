[package]
name = "hyprland_app_timer"
version = "0.1.0"
edition = "2021"
publish = false

[dependencies]
anyhow = "*"
chrono = "*"
env_logger = "*"
hyprland = "*"
log = "*"
sqlx = { version = "*", default-features = false, features = ["runtime-tokio", "sqlite"] }
tokio = { version = "*", features = ["rt", "rt-multi-thread", "net", "io-util", "sync", "time", "signal", "macros", "fs"] }
xdg = "*"
