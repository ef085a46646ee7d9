[package]
name = "paseto_auth"
version = "0.1.0"
edition = "2021"
publish = false

[dependencies]
rusty_paseto = { version = "=0.10.1", features = ["paserk"] }
serde = { version = "=1.0.229", features = ["derive"] }
serde_json = "=1.0.154"
chrono = "=0.4.45"
time = { version = "=0.3.55", features = ["parsing"] }
zxcvbn = "=3.1.1"
validator = { version = "=0.21.0", features = ["derive"] }
argon2 = "=0.5.3"
ed25519-dalek = { version = "=2.2.0", features = ["rand_core"] }
rand = "=0.10.3"
axum-cookie = "=0.3.0"
axum = "=0.8.9"
tokio = { version = "=1.54.1", features = ["full"] }
redis = { version = "=1.8.1", features = ["tokio-comp"] }
reqwest = { version = "=0.12.28", features = ["json"] }
diesel = { version = "=2.3.14", features = ["postgres_backend", "chrono"] }
diesel-async = { version = "=0.9.2", features = ["postgres", "deadpool"] }
dotenvy = "=0.15.7"
envy = "=0.4.2"
anyhow = "=1.0.104"
log = "=0.4.35"
thiserror = "=2.0.21"
tower = "=0.5.3"
tower-http = { version = "=0.6.11", features = ["trace"] }
tracing-subscriber = "=0.3.23"
apalis = "=0.7.4"
apalis-cron = "=0.7.4"
apalis-redis = "=0.7.4"
