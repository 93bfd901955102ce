[package]
name = "auth_service"
version = "0.1.0"
edition = "2021"
publish = false

[dependencies]
bcrypt = "=0.17.1"
jsonwebtoken = { version = "=10.4.0", default-features = false, features = ["use_pem", "rust_crypto"] }
chrono = "=0.4.45"
validator = { version = "=0.20.0", features = ["derive"] }
serde = { version = "=1.0.229", features = ["derive"] }
serde_json = { version = "=1.0.154", features = ["raw_value"] }
axum = "=0.8.9"
axum-extra = "=0.10.3"
tokio = { version = "=1.54.1", features = ["full"] }
bb8 = "=0.9.1"
bb8-redis = "=0.21.0"
sea-orm = { version = "=1.1.20", default-features = false, features = ["sqlx-postgres", "runtime-tokio-rustls", "macros", "with-chrono", "with-json"] }
sea-orm-migration = { version = "=1.1.20", default-features = false, features = ["sqlx-postgres", "runtime-tokio-rustls"] }
async-trait = "=0.1.92"
dotenv = "=0.15.0"
num_cpus = "=1.17.0"

[dev-dependencies]
rsa = { version = "=0.9.10", features = ["getrandom"] }
