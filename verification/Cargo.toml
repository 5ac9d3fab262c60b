[package]
name = "waybar_timer"
version = "0.1.0"
edition = "2021"
publish = false

[dependencies]
clap = { version = "4", features = ["derive"] }
notify-rust = "4"
time = { version = "0.3", features = ["formatting", "local-offset", "macros"] }
