[package]
name = "book_manager"
version = "0.1.0"
edition = "2021"
publish = false

[dependencies]
async-trait = "=0.1.92"
axum = "=0.8.9"
axum-extra = { version = "=0.12.6", features = ["typed-header"] }
chrono = { version = "=0.4.45", features = ["serde"] }
garde = { version = "=0.23.0", features = ["email"] }
redis = { version = "=1.8.0", features = ["tokio-comp"] }
serde = { version = "=1.0.229", features = ["derive"] }
strum = { version = "=0.28.0", features = ["derive"] }
utoipa = { version = "=6.0.0", features = ["chrono"] }
uuid = { version = "*", features = ["serde"] }
