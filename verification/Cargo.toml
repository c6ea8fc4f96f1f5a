[package]
name = "wifi_repeater"
version = "0.1.0"
edition = "2021"
publish = false

[dependencies]
anyhow = "1"
embedded-svc = "0.28"
esp-idf-svc = "0.51"
esp-idf-sys = "0.36"
heapless = "0.8"
log = "0.4"
serde = { version = "1", features = ["derive"] }
serde_json = "1"
