[package]
name = "backend"
version = "0.1.0"
edition = "2021"
publish = false

[dependencies]
anyhow = "=1.0.104"
async-trait = "=0.1.92"
chrono = { version = "=0.4.45", features = ["serde"] }
cookie = "=0.18.2"
firebase-admin-sdk = { version = "=0.2.4", default-features = false, features = ["auth"] }
jsonwebtoken = { version = "=10.4.0", default-features = false, features = ["rust_crypto"] }
rustls = { version = "=0.23.46", features = ["ring"] }
salvo = { version = "=1.1.0", default-features = false, features = ["server", "server-handle", "http1", "cookie", "jwt-auth", "oapi"] }
serde = { version = "=1.0.229", features = ["derive"] }
serde_json = { version = "=1.0.154", features = ["raw_value"] }
sqlx = { version = "=0.9.0", default-features = false, features = ["runtime-tokio", "postgres", "uuid", "chrono"] }
thiserror = "=2.0.21"
tokio = { version = "=1.54.1", features = ["macros", "rt-multi-thread", "signal"] }
tracing = "=0.1.44"
uuid = { version = "=1.29.0", features = ["serde", "std"] }
