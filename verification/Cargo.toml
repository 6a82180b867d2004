[package]
name = "drone_print"
version = "0.1.0"
edition = "2021"
publish = false

[dependencies]
anyhow = "=1.0.104"
prettytable-rs = { version = "0.10", default-features = false }
serde = { version = "=1.0.229", features = ["derive"] }
toml = "=0.5.11"
