[package]
name = "pgdesk"
version = "0.1.0"
edition = "2021"
publish = false

[dependencies]
iced = { version = "0.14", default-features = false, features = ["tiny-skia", "x11", "highlighter", "tokio"] }
iced_futures = { version = "0.14", features = ["tokio"] }
keyring = { version = "3", features = ["linux-native"] }
directories = "6"
serde = { version = "1", features = ["derive"] }
toml = "0.9"
thiserror = "2"
tokio = { version = "1", features = ["rt", "rt-multi-thread"] }
tracing = "0.1"
tracing-subscriber = { version = "0.3", features = ["env-filter"] }
