[package]
name = "rical"
version = "0.1.0"
edition = "2021"
publish = false

[dependencies]
chrono = { version = "=0.4.45", default-features = false, features = ["clock", "std"] }
crossterm = "=0.29.0"
reqwest = { version = "=0.12.28", default-features = false, features = ["blocking", "json"] }
serde = { version = "=1.0.229", features = ["derive"] }
dotenvy = "=0.15.7"
axum = "=0.8.9"
axum-extra = { version = "=0.10.3", features = ["typed-header"] }
sqlx = { version = "=0.8.6", default-features = false, features = ["postgres", "runtime-tokio", "macros"] }
tokio = { version = "=1.54.1", features = ["rt-multi-thread", "macros", "net"] }
argon2 = "=0.5.3"
hmac = "=0.12.1"
jwt = "=0.16.0"
sha2 = "=0.10.9"

[dev-dependencies]
regex = "1"
