[package]
name = "nu_plugin_weather"
version = "0.1.0"
edition = "2021"
publish = false

[dependencies]
chrono = "0.4"
futures = "0.3"
nu-data = "0.44"
nu-errors = "0.44"
nu-plugin = "0.44"
nu-protocol = "0.44"
nu-source = "0.44"
serde = { version = "1", features = ["derive"] }
serde_json = "1"
surf = "1.0"
