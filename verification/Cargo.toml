[package]
name = "photo_editor"
version = "0.1.0"
edition = "2021"
publish = false

[dependencies]
bytemuck = { version = "1", features = ["derive"] }
cgmath = "0.18"
directories = "5"
futures-executor = "0.3"
glam = { version = "0.29", features = ["bytemuck"] }
image = { version = "0.25", default-features = false, features = ["png", "jpeg"] }
native-dialog = "0.7"
rayon = "1"
rusqlite = { version = "0.32", features = ["bundled", "blob"] }
serde = { version = "1", features = ["derive"] }
serde_json = "1"
