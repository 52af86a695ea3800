[package]
name = "image_widget"
version = "0.1.0"
edition = "2021"
publish = false

[dependencies]
anyhow = "1"
async-trait = "0.1"
embedded-graphics = "0.8"
fast_image_resize = "*"
image = { version = "0.25", default-features = false, features = ["png", "jpeg"] }
log = "0.4"
serde = { version = "1", features = ["derive"] }
tokio = { version = "1", features = ["sync"] }
