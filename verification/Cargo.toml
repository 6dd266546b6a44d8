[package]
name = "starter_tauri_app"
version = "0.1.0"
edition = "2021"
publish = false

[dependencies]
sha2 = "0.10"
hex = "0.4"
serde = { version = "1", features = ["derive"] }
anyhow = "1"
libc = "0.2"
flate2 = "1"
tar = "0.4"
xz2 = "0.1"
zip = "2"
reqwest = "0.12"
tokio = { version = "1", features = ["fs", "io-util"] }
