[package]
name = "entry-point"
version = "0.1.0"
edition = "2021"
publish = false

[dependencies]
axum = "0.8"
bcrypt = "0.15"
chrono = { version = "0.4", features = ["serde"] }
rand = "0.8"
redis = { version = "0.27", features = ["tokio-comp", "connection-manager"] }
regex = "1"
serde = { version = "1", features = ["derive"] }
serde_json = "1"
sqlx = { version = "0.8", default-features = false, features = ["postgres", "runtime-tokio", "uuid", "chrono", "json", "macros"] }
uuid = { version = "1", features = ["v4"] }
