[package]
name = "core_lib"
version = "0.1.0"
edition = "2021"
publish = false

[dependencies]
anyhow = "=1.0.104"
async-trait = "=0.1.92"
chrono = { version = "=0.4.45", default-features = false, features = ["clock", "serde"] }
dotenvy = "=0.15.7"
env_logger = { version = "=0.11.11", default-features = false }
futures = "=0.3.34"
futures-util = { version = "=0.3.34", features = ["sink"] }
hex = "=0.4.3"
jsonwebtoken = "=9.3.1"
log = "=0.4.35"
rustls-pemfile = "=2.2.0"
serde = { version = "=1.0.229", features = ["derive"] }
serde_json = { version = "=1.0.154", features = ["preserve_order"] }
sha2 = "=0.10.9"
sqlx = { version = "=0.8.6", default-features = false, features = ["postgres", "runtime-tokio", "chrono", "json", "macros"] }
tokio = { version = "=1.54.1", features = ["full"] }
tokio-rustls = "=0.26.6"
tokio-tungstenite = "=0.24.0"
tokio-util = { version = "=0.7.20", features = ["codec"] }
