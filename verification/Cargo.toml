[package]
name = "nizctl"
version = "0.1.0"
edition = "2021"
publish = false

[dependencies]
anyhow = "=1.0.104"
clap = { version = "=4.6.7", features = ["derive"] }
dialog = "=0.3.0"
hidapi = { version = "=2.6.7", default-features = false, features = ["linux-native-basic-udev"] }

[dev-dependencies]
serde_json = "=1.0.151"
