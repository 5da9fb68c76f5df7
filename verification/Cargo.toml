[package]
name = "life_war"
version = "0.1.0"
edition = "2021"
publish = false

[dependencies]
axum = "=0.8.9"
tokio = { version = "=1.54.1", features = ["macros", "rt-multi-thread", "net"] }
serde = { version = "=1.0.229", features = ["derive"] }
rust-embed = { version = "=8.13.0", features = ["interpolate-folder-path"] }
webbrowser = "=1.2.6"
