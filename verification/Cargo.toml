[package]
name = "tda_orders"
version = "0.1.0"
edition = "2021"
publish = false

[dependencies]
reqwest = { version = "=0.13.5", default-features = false, features = ["json", "native-tls"] }
reqwest-middleware = { version = "=0.5.2", features = ["json"] }
reqwest-retry = "=0.9.1"
serde = { version = "=1.0.229", features = ["derive"] }
serde_json = "=1.0.154"
