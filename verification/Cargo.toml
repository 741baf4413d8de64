[package]
name = "ai_query_check"
version = "0.1.0"
edition = "2021"
publish = false

[dependencies]
brush-parser = "=0.3.0"
sqlparser = "=0.63.0"
serde = { version = "=1.0.229", features = ["derive"] }
serde_json = "=1.0.154"
