[package]
name = "race_timer"
version = "0.1.0"
edition = "2021"
publish = false

[dependencies]
rand = "0.8"
serialport = { version = "4", default-features = false }
tokio = { version = "1", features = ["full"] }
sqlx = { version = "0.8", default-features = false, features = ["sqlite", "runtime-tokio", "derive"] }
axum = { version = "0.8", features = ["ws", "http2"] }
axum-server = { version = "0.7", features = ["tls-rustls"] }
tower-http = { version = "0.6", features = ["fs"] }
tracing = "0.1"
tracing-subscriber = { version = "0.3", features = ["env-filter"] }
serde = { version = "1", features = ["derive"] }
