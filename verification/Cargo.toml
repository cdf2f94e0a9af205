[package]
name = "twelve_data_inav"
version = "0.5.0"
edition = "2021"
publish = false

[dependencies]
serde = { version = "1", features = ["derive"] }
serde_derive = "1"
serde_json = "1"
serde_urlencoded = "0.7"
serde_with = "3"
csv = "1"
axum = { version = "0.8", default-features = false }
