[package]
name = "temp_share"
version = "0.1.0"
edition = "2021"
publish = false

[dependencies]
axum = { version = "0.7", features = ["multipart"] }
axum-extra = { version = "0.9", features = ["typed-header"] }
axum-htmx = "0.6"
axum-range = "0.4"
chrono = "=0.4.45"
cron = "0.12"
futures = "0.3"
humantime = "=2.4.0"
maud = { version = "0.26", features = ["axum"] }
mime_guess = "=2.0.5"
opendal = "0.45"
relative-path = "=1.9.3"
shuttle-opendal = "0.44"
shuttle-runtime = "0.44"
tokio = { version = "1", features = ["macros", "rt-multi-thread", "net"] }
tokio-cron-scheduler = "0.10"
tower-http = { version = "0.5", features = ["fs", "trace"] }
tracing = "0.1"
tracing-subscriber = { version = "0.3", features = ["env-filter"] }
uuid = { version = "=1.29.0", features = ["v7"] }
