[package]
name = "convertix"
version = "0.1.0"
edition = "2021"
publish = false

[dependencies]
uuid = { version = "1", features = ["v4"] }
serde = { version = "1", features = ["derive"] }
serde_json = "1"
toml = "0.8"
tokio = { version = "1", features = ["full"] }
directories = "5"
sha2 = "0.10"
image = { version = "0.25", default-features = false, features = ["png", "jpeg"] }
thiserror = "1"
