[package]
name = "turnip_music2"
version = "0.1.0"
edition = "2021"
publish = false

[dependencies]
anyhow = "=1.0.104"
id3 = "=1.17.2"
metaflac = "=0.2.8"
mp4ameta = "=0.13.0"
serde = { version = "=1.0.229", features = ["derive"] }
toml_edit = { version = "=0.25.15", features = ["serde"] }
