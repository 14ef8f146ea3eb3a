[package]
name = "xivrepo_search"
version = "0.1.0"
edition = "2021"
publish = false

[dependencies]
actix-rt = "=2.15.0"
chrono = { version = "=0.4.45", features = ["serde"] }
dotenv = "=0.15.0"
futures = "=0.3.34"
log = "=0.4.34"
meilisearch-sdk = "=0.33.0"
serde = { version = "=1.0.229", features = ["derive"] }
serde_json = "=1.0.151"
sqlx = { version = "=0.9.0", default-features = false, features = ["runtime-tokio", "postgres", "chrono"] }
