[package]
name = "steam_box"
version = "0.1.0"
edition = "2021"
publish = false

[dependencies]
aes-gcm = "0.10"
sha2 = "0.10"
hex = "0.4"
base64 = "0.22"
chrono = "0.4"
serde = { version = "1", features = ["derive"] }
serde_json = "1"
dirs = "5"
hostname = "0.4"
reqwest = { version = "0.12", default-features = false, features = ["json"] }
thiserror = "1"
