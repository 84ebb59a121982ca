[package]
name = "board"
version = "0.1.0"
edition = "2021"
publish = false

[dependencies]
axum = "=0.6.20"
nanoid = "=0.4.0"
serde = { version = "=1.0.229", features = ["derive"] }
shuttle-aws-rds = { version = "0.30", features = ["postgres"] }
shuttle-axum = "0.30"
shuttle-runtime = "0.30"
shuttle-static-folder = "=0.28.0"
sqlx = { version = "=0.7.4", features = ["runtime-tokio", "postgres"] }
tera = "=1.20.1"
tokio = { version = "=1.54.1", features = ["fs", "io-util"] }
tower-http = { version = "=0.4.4", features = ["fs"] }
