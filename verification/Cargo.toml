[package]
name = "spotitube_auth"
version = "0.1.0"
edition = "2021"
publish = false

[dependencies]
rust-argon2 = "=3.0.0"
jsonwebtoken = { version = "=11.1.0", features = ["rust_crypto"] }
uuid = { version = "=1.27.0", features = ["v4", "serde"] }
serde = { version = "*", features = ["derive"] }
axum = "*"
tokio = { version = "*", features = ["rt-multi-thread", "net", "macros"] }
tower = "*"
tower-http = { version = "*", features = ["trace", "cors"] }
http = "*"
tracing = "*"
lazy_static = "*"
metrics = "*"
metrics-exporter-prometheus = "*"
sqlx = { version = "*", features = ["runtime-tokio", "postgres", "uuid", "time"], default-features = false }
validator = { version = "*", features = ["derive"] }
async-trait = "*"
