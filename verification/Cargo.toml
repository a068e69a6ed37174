[package]
name = "post_extract"
version = "0.1.0"
edition = "2021"
publish = false

[dependencies]
chrono = { version = "0.4", default-features = false, features = ["std"] }
comrak = { version = "0.18", default-features = false }
eyre = "0.6"
serde = { version = "1", features = ["derive"] }
serde_derive = "1"
serde_yaml = "0.9"
