[package]
name = "vajra"
version = "0.1.0"
edition = "2021"
publish = false

[dependencies]
anyhow = "1"
chrono = "0.4"
csv = "1"
polars = { version = "0.36", default-features = false, features = ["lazy", "csv"] }
serde = { version = "1", features = ["derive"] }
serde_json = "1"
ta = "0.5"
