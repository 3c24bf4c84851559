[package]
name = "jobless"
version = "0.1.0"
edition = "2021"
publish = false

[dependencies]
anyhow = "=1.0.104"
atomic-write-file = "=0.3.1"
config = { version = "=0.15.27", default-features = false, features = ["toml"] }
crossbeam-channel = "=0.5.17"
directories = "=6.0.0"
keyring = { version = "=3.6.3", features = ["apple-native", "linux-native", "windows-native"] }
rusqlite = { version = "=0.41.1", features = ["bundled"] }
secrecy = "=0.10.3"
serde = { version = "=1.0.229", features = ["derive"] }
serde_json = "=1.0.154"
toml = "=1.1.8"
tracing = "=0.1.44"
tracing-subscriber = { version = "=0.3.23", features = ["env-filter"] }
zeroize = "=1.9.1"

[dev-dependencies]
tempfile = "=3.27.0"
