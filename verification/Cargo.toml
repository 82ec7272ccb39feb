[package]
name = "zero2prod"
version = "0.1.0"
edition = "2021"
publish = false

[dependencies]
anyhow = "1"
axum = { version = "0.6", features = ["macros"] }
axum-extra = { version = "0.7", features = ["cookie", "cookie-private"] }
axum-sessions = "0.5"
hyper = { version = "0.14", features = ["full"] }
secrecy = { version = "0.8", features = ["serde"] }
serde = { version = "1", features = ["derive"] }
sqlx = { version = "0.7", default-features = false, features = ["postgres", "runtime-tokio", "uuid", "chrono"] }
thiserror = "1"
tokio = { version = "1", features = ["macros", "rt-multi-thread"] }
tower = "0.4"
tower-http = { version = "0.4", features = ["trace", "request-id", "util"] }
tracing = "0.1"
uuid = { version = "1", features = ["v4", "serde"] }
