[package]
name = "elnafo"
version = "0.1.0"
edition = "2021"
publish = false

[dependencies]
argon2 = "=0.5.3"
rand_core = { version = "=0.6.4", features = ["getrandom"] }
jsonwebtoken = "=9.3.1"
chrono = "=0.4.45"
uuid = { version = "=1.29.0", features = ["v4"] }
sqids = "=0.4.2"
time = "=0.3.55"
mime_guess = "=2.0.5"
serde = { version = "=1.0.229", features = ["derive"] }
serde_json = "=1.0.154"
toml = "=0.8.23"
axum = { version = "=0.7.9", features = ["multipart"] }
axum-extra = { version = "=0.9.6", features = ["cookie"] }
tokio = { version = "=1.54.1", features = ["full"] }
tower-http = { version = "=0.5.2", features = ["cors", "trace", "compression-gzip"] }
diesel = { version = "=2.3.14", features = ["postgres", "uuid"] }
deadpool-diesel = { version = "=0.7.0", features = ["postgres"] }
dotenvy = "=0.15.7"
image = "=0.24.9"
tracing = "0.1"
tracing-subscriber = "0.3"
utoipa = { version = "4", features = ["axum_extras"] }
utoipa-rapidoc = { version = "4", features = ["axum"] }
