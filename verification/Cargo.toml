[package]
name = "orca"
version = "0.1.0"
edition = "2021"
publish = false

[dependencies]
chrono = { version = "=0.4.45", default-features = false, features = ["clock", "std", "serde"] }
uuid = { version = "=1.29.0", features = ["v4", "serde"] }
serde = { version = "=1.0.229", features = ["derive"] }
serde_json = "=1.0.154"
thiserror = "=1.0.69"
tracing = "=0.1.44"
sea-orm = { version = "=0.12.15", default-features = false, features = ["macros", "with-chrono", "with-uuid", "with-json"] }
thirtyfour = { version = "=0.31.0", default-features = false }
axum = "=0.6.20"
