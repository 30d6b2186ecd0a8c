[package]
name = "gryphon_verification"
version = "0.1.0"
edition = "2021"
publish = false

[dependencies]
anyhow = "=1.0.104"
calamine = "=0.24.0"
chrono = "=0.4.45"
chrono-tz = "=0.9.0"
cron = "=0.12.1"
diesel = { version = "=2.1.6", default-features = false, features = ["mysql_backend", "chrono"] }
diesel-async = { version = "=0.4.1", features = ["mysql"] }
dotenv = "=0.15.0"
futures = "=0.3.34"
lettre = { version = "=0.11.23", default-features = false, features = ["builder", "smtp-transport", "tokio1", "tokio1-rustls-tls", "hostname"] }
log = "=0.4.34"
poise = "=0.6.2"
rand = "=0.8.8"
serde = { version = "=1.0.229", features = ["derive"] }
thiserror = "=1.0.69"
tokio = { version = "=1.54.1", features = ["full"] }
