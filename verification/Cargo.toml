[package]
name = "bybe"
version = "0.1.0"
edition = "2021"
publish = false

[dependencies]
regex = "=1.13.1"
anyhow = "=1.0.104"
serde = { version = "=1.0.229", features = ["derive"] }
serde_json = "=1.0.154"
strum = { version = "=0.26.3", features = ["derive"] }
sqlx = { version = "=0.8.6", default-features = false, features = ["postgres", "runtime-tokio", "macros"] }
tokio = { version = "=1.54.1", features = ["rt-multi-thread", "macros"] }
nanorand = "0.7"
dotenvy = "0.15"
