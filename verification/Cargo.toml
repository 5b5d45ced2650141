[package]
name = "oem_cp"
version = "0.1.0"
edition = "2021"
publish = false

[dependencies]
serde = { version = "*", features = ["derive"] }
serde_json = "*"

[dev-dependencies]
yore = "=2.1.1"
