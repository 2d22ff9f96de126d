[package]
name = "nlo_text_editor_server"
version = "0.1.0"
edition = "2021"
publish = false

[dependencies]
ropey = { version = "1.6", default-features = false }
unicode-segmentation = "1"
serde = { version = "1", features = ["derive"] }
ron = "0.8"
