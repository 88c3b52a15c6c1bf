[package]
name = "air_controller"
version = "0.1.0"
edition = "2021"
publish = false

[dependencies]
serde = { version = "1", features = ["derive"] }
serde_json = "1"
reqwest = { version = "0.12", default-features = false, features = ["json"] }
keyring = { version = "3", features = ["linux-native"] }
auto-launch = "0.5"
directories = "5"
tokio = { version = "1", features = ["time", "rt"] }
