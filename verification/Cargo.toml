[package]
name = "pingo_share"
version = "0.1.0"
edition = "2021"
publish = false

[dependencies]
actix-cors = "=0.7.2"
actix-files = "=0.6.10"
actix-multipart = "=0.7.2"
actix-web = { version = "=4.18.1", default-features = false, features = ["macros", "cookies"] }
chrono = { version = "=0.4.45", features = ["serde"] }
crossterm = "=0.28.1"
env_logger = "=0.11.11"
futures-util = "=0.3.34"
hex = "=0.4.3"
jsonwebtoken = { version = "10", default-features = false, features = ["rust_crypto"] }
log = "=0.4.34"
ratatui = "=0.29.0"
serde = { version = "=1.0.229", features = ["derive"] }
serde_json = "=1.0.154"
sha2 = "=0.10.9"
sqlx = { version = "=0.8.6", default-features = false, features = ["runtime-tokio", "postgres", "chrono", "derive"] }
tokio = { version = "=1.54.1", features = ["macros", "rt-multi-thread", "time"] }
zip = { version = "=2.6.1", default-features = false, features = ["deflate"] }
