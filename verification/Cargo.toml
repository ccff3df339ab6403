[package]
name = "media_host"
version = "0.1.0"
edition = "2021"
publish = false

[dependencies]
infer = "*"
rand = "0.8"
uuid = "1"
axum = { version = "0.6", features = ["headers", "multipart"] }
diesel = { version = "2", default-features = false, features = ["postgres_backend", "uuid"] }
diesel-async = { version = "*", features = ["postgres", "deadpool"] }
serde = { version = "1", features = ["derive"] }
tracing = "0.1"
