[package]
name = "omaasus"
version = "0.1.0"
edition = "2021"
publish = false

[dependencies]
uuid = { version = "=1.29.0", features = ["v4", "serde"] }
serde = { version = "=1.0.229", features = ["derive"] }
zbus = { version = "=5.19.0", default-features = false, features = ["tokio"] }
tokio = { version = "=1.54.1", features = ["time", "rt"] }
toml = "=0.9.12"
tracing = "0.1"
iced = { version = "=0.14.0", default-features = false, features = ["tokio", "wayland"] }
