[package]
name = "emojied"
version = "0.1.0"
edition = "2021"
publish = false

[dependencies]
axum = "0.6"
deadpool-postgres = "0.12"
deadpool-sqlite = "0.5"
hyper = { version = "0.14", features = ["server", "http1", "tcp"] }
maud = "0.25"
native-tls = "0.2"
postgres-native-tls = "0.5"
serde = { version = "1", features = ["derive"] }
serde_json = "1"
thiserror = "1"
tiny_id = "0.1"
tokio = { version = "1", features = ["full"] }
tokio-postgres = "0.7"
tower-http = { version = "0.4", features = ["fs"] }
tracing = "0.1"
tracing-subscriber = { version = "0.3", features = ["json"] }
unic-char-range = "0.9"
unic-emoji-char = "0.9"
unicode-segmentation = "1"
