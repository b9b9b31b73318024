[package]
name = "mod_server"
version = "0.1.0"
edition = "2021"
publish = false

[dependencies]
fancy-regex = "=0.20.0"
futures = "=0.3.34"
reqwest = { version = "=0.10.10", features = ["json"] }
serde = { version = "=1.0.229", features = ["derive"] }
tokio = { version = "=0.2.25", features = ["full"] }
toml = { version = "=0.5.11", features = ["preserve_order"] }
