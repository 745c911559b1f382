[package]
name = "blog_project"
version = "0.1.0"
edition = "2021"
publish = false

[dependencies]
jsonwebtoken = "=9.3.1"
argon2 = { version = "=0.5.3", features = ["std"] }
password-hash = { version = "=0.5.0", features = ["getrandom"] }
validator = "=0.21.0"
serde = { version = "=1.0.229", features = ["derive"] }
serde_json = { version = "=1.0.154", features = ["raw_value", "preserve_order"] }
chrono = { version = "=0.4.45", features = ["serde"] }
actix-web = "=4.18.1"
actix-web-httpauth = "=0.8.3"
actix-cors = "=0.7.2"
sqlx = { version = "=0.8.6", default-features = false, features = ["postgres", "runtime-tokio", "chrono", "derive", "migrate"] }
tokio = { version = "=1.54.1", features = ["macros", "rt-multi-thread"] }
dotenvy = "=0.15.7"
thiserror = "=1.0.69"
anyhow = "=1.0.104"
log = "=0.4.35"
tracing = "0.1"
tracing-subscriber = { version = "0.3", features = ["env-filter", "json", "time"] }
