[package]
name = "sekiro_launcher"
version = "0.1.0"
edition = "2021"
publish = false

[dependencies]
anyhow = "=1.0.104"
dirs = "=5.0.1"
env_logger = { version = "=0.11.11", default-features = false }
flate2 = "=1.1.10"
iced = { version = "=0.14.0", default-features = false, features = ["tiny-skia", "tokio", "x11"] }
image = { version = "=0.25.10", default-features = false, features = ["png"] }
ksni = { version = "=0.3.7", features = ["blocking"] }
log = "=0.4.35"
reqwest = { version = "=0.12.28", default-features = false, features = ["blocking", "json", "rustls-tls"] }
serde = { version = "=1.0.229", features = ["derive"] }
serde_json = "=1.0.154"
sha2 = "=0.10.9"
shellexpand = "=3.1.2"
tar = "=0.4.46"
tokio = { version = "=1.54.1", features = ["rt-multi-thread", "time"] }
toml = "=0.8.23"
zip = { version = "=2.6.1", default-features = false, features = ["deflate"] }
