[package]
name = "flask_macro"
version = "0.1.0"
edition = "2021"
publish = false

[dependencies]
rand = { version = "=0.8.8", features = ["small_rng"] }
serde = { version = "=1.0.229", features = ["derive"] }
serde_json = "=1.0.151"
dirs = "=5.0.1"
futures = "=0.3.34"
winapi = { version = "=0.3.9", features = ["winuser", "winnt", "threadpoollegacyapiset"] }
