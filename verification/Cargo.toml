[package]
name = "rust_auth"
version = "0.1.0"
edition = "2021"
publish = false

[dependencies]
uuid = { version = "*", features = ["v4"] }
chrono = "*"
bcrypt = "*"
serde = { version = "*", features = ["derive"] }
serde_json = "*"
axum = "*"
tokio = { version = "*", features = ["rt-multi-thread", "macros", "net"] }
redis = { version = "*", features = ["tokio-comp"] }
diesel = { version = "*", default-features = false, features = ["postgres_backend", "uuid"] }
diesel-async = { version = "*", features = ["postgres", "bb8"] }
bb8 = "*"
