[package]
name = "sql_dispatch"
version = "0.1.0"
edition = "2021"
publish = false

[dependencies]
axum = "*"
http = "*"
serde = { version = "*", features = ["derive"] }
tokio = { version = "*", features = ["rt-multi-thread", "macros", "net"] }
tokio-postgres = "*"
