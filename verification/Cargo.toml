[package]
name = "hyprdock"
version = "0.1.0"
edition = "2021"
publish = false

[dependencies]
directories = "5"
gtk4 = "0.9"
gtk4-layer-shell = "0.4"
hyprland = "0.3"
serde = { version = "1", features = ["derive"] }
tokio = { version = "1", features = ["sync", "rt"] }
toml = "0.8"
