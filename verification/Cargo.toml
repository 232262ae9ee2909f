[package]
name = "collision_core"
version = "0.1.0"
edition = "2021"
publish = false

[dependencies]
geo = "0.28"
serde = { version = "1", features = ["derive"] }
serde_json = "1"
amethyst = { version = "0.15", default-features = false }
