[package]
name = "verden"
version = "0.1.0"
edition = "2021"
publish = false

[dependencies]
axum = { version = "=0.5.17", features = ["headers", "multipart"] }
chrono = "=0.4.45"
jsonwebtoken = { version = "=11.1.0", features = ["rust_crypto"] }
rand = "=0.10.3"
serde = { version = "=1.0.229", features = ["derive"] }
serde_json = "=1.0.151"
sha256 = { version = "=1.6.0", default-features = false }
sqlx = { version = "=0.7.4", features = ["runtime-tokio", "postgres", "chrono", "json"] }
tokio = { version = "=1.53.2", features = ["macros", "rt-multi-thread", "net", "fs"] }
