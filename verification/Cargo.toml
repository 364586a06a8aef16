[package]
name = "signal_relayer"
version = "0.1.0"
edition = "2021"
publish = false

[dependencies]
anyhow = "=1.0.104"
axum = "=0.6.20"
base64 = "=0.21.7"
chrono = "=0.4.45"
clap = { version = "=4.6.7", features = ["derive"] }
directories = "=5.0.1"
futures = "=0.3.34"
hex = "=0.4.3"
hyper = "=0.14.32"
mime_guess = "=2.0.5"
notify-rust = "=4.18.2"
serde = { version = "=1.0.229", features = ["derive"] }
tempfile = "=3.27.0"
tokio = { version = "=1.54.1", features = ["full"] }
tower-http = { version = "=0.4.4", features = ["trace"] }
tracing = "=0.1.44"
url = "=2.5.8"
utoipa = { version = "=4.2.3", features = ["axum_extras"] }
utoipa-rapidoc = { version = "=1.0.0", features = ["axum"] }
utoipa-redoc = { version = "=1.0.0", features = ["axum"] }
utoipa-swagger-ui = { version = "=4.0.0", features = ["axum"] }
uuid = "=1.29.0"
