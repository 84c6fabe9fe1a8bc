[package]
name = "spotify_player"
version = "0.1.0"
edition = "2021"
publish = false

[dependencies]
anyhow = "*"
chrono = "*"
image = { version = "=0.25.10", default-features = false, features = ["png", "jpeg"] }
lyric_finder = "=0.2.0"
parking_lot = "*"
reqwest = { version = "=0.12.28", default-features = false, features = ["rustls-tls", "json"] }
rspotify = { version = "=0.16.1", default-features = false, features = ["client-reqwest", "reqwest-rustls-tls"] }
rspotify-model = "=0.16.1"
serde = "*"
tokio = { version = "*", features = ["macros", "rt-multi-thread", "sync", "time"] }
tracing = "*"
