[package]
name = "rust_pilot"
version = "0.1.0"
edition = "2021"
publish = false

[dependencies]
chrono = "=0.4.45"
serde = { version = "=1.0.229", features = ["derive"] }
serde_json = "=1.0.151"
serde_yaml = "=0.9.34"
tokio = { version = "=1.53.2", features = ["macros", "rt-multi-thread", "time"] }
appium-client = "=0.2.2"
fantoccini = "=0.19.3"
colored = "=3.1.1"
spinners = "=4.2.0"
