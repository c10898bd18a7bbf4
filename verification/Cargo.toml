[package]
name = "ptero_gdrive"
version = "0.1.0"
edition = "2021"
publish = false

[dependencies]
anyhow = "*"
chrono = "*"
reqwest = { version = "*", default-features = false, features = ["json", "stream", "rustls-tls"] }
serde = { version = "*", features = ["derive"] }
serde_json = "*"
tokio = { version = "*", features = ["fs", "macros", "rt"] }
tracing = "*"
tracing-subscriber = { version = "*", features = ["fmt"] }
yup-oauth2 = "*"
