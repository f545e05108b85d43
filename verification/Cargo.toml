[package]
name = "collab_editor"
version = "0.1.0"
edition = "2021"
publish = false

[dependencies]
chrono = { version = "0.4", default-features = false, features = ["clock"] }
uuid = { version = "1", default-features = false, features = ["v4"] }
serde = { version = "1", features = ["derive"] }
serde_json = "1"
