[package]
name = "kevboy"
version = "0.1.0"
edition = "2021"
publish = false

[dependencies]
anyhow = "1"
gilrs = { version = "0.10", default-features = false }
hashlink = { version = "0.8", features = ["serde_impl"] }
image = { version = "0.24", default-features = false, features = ["png"] }
rodio = { version = "0.17", default-features = false }
serde = { version = "1", features = ["derive"] }
serde_json = "1"
