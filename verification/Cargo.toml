[package]
name = "memos"
version = "0.1.0"
edition = "2021"
publish = false

[dependencies]
cel-parser = "=0.8.1"
serde = { version = "=1.0.229", features = ["derive"] }
serde_json = "=1.0.154"
sql_query_builder = { version = "=2.7.2", features = ["sqlite"] }
time = { version = "=0.3.55", features = ["parsing"] }
syn = { version = "=2.0.119", features = ["full"] }
