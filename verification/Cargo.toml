[package]
name = "schema_query"
version = "0.1.0"
edition = "2021"
publish = false

[dependencies]
sea-query = "*"
sqlx = { version = "*", features = ["mysql", "runtime-tokio"] }
