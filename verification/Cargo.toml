[package]
name = "edge_api"
version = "0.1.0"
edition = "2021"
publish = false

[dependencies]
chrono = { version = "=0.4.45", features = ["wasmbind"] }
console_error_panic_hook = "=0.1.7"
serde = { version = "=1.0.229", features = ["derive"] }
serde_json = "=1.0.154"
uuid = { version = "=1.29.0", features = ["v4", "js"] }
worker = { version = "=0.3.4", features = ["d1"] }
