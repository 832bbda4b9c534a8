[package]
name = "zero2prod"
version = "0.1.0"
edition = "2021"
publish = false

[dependencies]
secrecy = { version = "=0.8.0", features = ["serde"] }
sqlx = { version = "=0.7.4", default-features = false, features = ["postgres", "runtime-tokio", "migrate", "uuid", "chrono"] }
serde = { version = "=1.0.229", features = ["derive"] }
serde-aux = "=4.7.0"
serde_yaml = "=0.9.34"
serde-envfile = "=0.4.1"
config = { version = "=0.13.4", default-features = false, features = ["yaml"] }
actix-web = { version = "=4.18.1", default-features = false, features = ["macros"] }
tokio = { version = "=1.54.1", features = ["macros", "rt-multi-thread"] }
anyhow = "=1.0.104"
thiserror = "=1.0.69"
uuid = { version = "=1.29.0", features = ["v4"] }
chrono = { version = "=0.4.45", default-features = false, features = ["clock"] }
tracing = "=0.1.44"
tracing-subscriber = { version = "=0.3.23", features = ["registry", "env-filter"] }
tracing-bunyan-formatter = "=0.3.11"
tracing-log = "=0.2.0"
tracing-actix-web = "=0.7.25"
ctrlc = "=3.5.2"
env_logger = "=0.10.2"
log = "=0.4.35"
testcontainers = "=0.16.7"
testcontainers-modules = { version = "=0.4.3", features = ["postgres"] }
