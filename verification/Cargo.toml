[package]
name = "platformio2nix"
version = "0.1.0"
edition = "2021"
publish = false

[dependencies]
base64 = "=0.23.1"
clap = { version = "=4.6.7", features = ["derive"] }
color-eyre = "=0.6.5"
http-cache-reqwest = "=0.16.0"
log = "=0.4.34"
pretty_env_logger = "=0.5.0"
reqwest = { version = "=0.12.28", default-features = false, features = ["rustls-tls"] }
reqwest-middleware = "=0.4.2"
serde = { version = "=1.0.229", features = ["derive"] }
serde_json = "=1.0.151"
serde_path_to_error = "=0.1.20"
sha2 = "=0.11.0"
tokio = { version = "=1.53.2", default-features = false, features = ["rt-multi-thread", "macros"] }
url = "=2.5.8"
xdg = "=3.0.0"
