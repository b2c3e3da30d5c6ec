[package]
name = "context_retrieval"
version = "0.1.0"
edition = "2021"
publish = false

[dependencies]
serde_json = "=1.0.154"
serde = { version = "1", features = ["derive"] }
actix-web = "4"
elasticsearch = "=8.5.0-alpha.1"
prometheus = "0.13"
tokio = { version = "1", features = ["sync", "macros", "rt-multi-thread"] }
