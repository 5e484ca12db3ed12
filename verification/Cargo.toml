[package]
name = "rck_core"
version = "0.1.0"
edition = "2021"
publish = false

[dependencies]
base64 = "=0.22.1"
hex = "0.4"
unicode-segmentation = "=1.13.3"
unicode-width = "=0.2.3"
regex = "=1.13.1"
image = { version = "=0.25.10", default-features = false, features = ["png", "jpeg", "gif", "bmp", "webp", "tiff", "ico"] }
crossterm = "=0.28.1"
clap = { version = "=4.6.7", features = ["derive"] }
serde = { version = "=1.0.229", features = ["derive"] }
serde_json = "=1.0.154"
anyhow = "=1.0.104"
