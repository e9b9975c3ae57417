[package]
name = "fx_lookup"
version = "0.1.0"
edition = "2021"
publish = false

[dependencies]
chrono = "=0.4.45"
colored = "=2.2.0"
reqwest = { version = "=0.12.28", features = ["blocking"] }
rusqlite = "=0.32.1"
serde_json = "=1.0.154"

[dev-dependencies]
regex = "1"
