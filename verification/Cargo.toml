[package]
name = "rsi_maintenance"
version = "0.1.0"
edition = "2021"
publish = false

[dependencies]
fluent-bundle = "=0.16.0"
unic-langid = "=0.9.6"
serde = { version = "=1.0.229", features = ["derive"] }
toml = "=1.1.8"
xdg = "=3.0.0"
sys-locale = "=0.3.2"
opener = { version = "=0.9.0", default-features = false }
tokio = { version = "=1.54.1", features = ["rt-multi-thread", "fs", "io-util"] }
reqwest = { version = "=0.12.28", default-features = false, features = ["stream", "rustls-tls"] }
rfd = { version = "=0.16.1", default-features = false, features = ["xdg-portal", "tokio"] }
iced = { version = "=0.14.0", default-features = false, features = ["tokio", "tiny-skia", "x11", "sipper"] }
