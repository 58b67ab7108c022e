[package]
name = "rustcommon"
version = "0.1.0"
edition = "2021"
publish = false

[dependencies]
redis = { version = "=1.8.0", default-features = false, features = ["aio", "tokio-comp"] }
reqwest = { version = "=0.13.5", default-features = false }
sqlx = { version = "=0.9.0", default-features = false, features = ["mysql", "runtime-tokio"] }
actix = "=0.13.5"
actix-redis = { version = "=0.13.1", default-features = false }
redis-async = "=0.16.1"
futures = "=0.3.34"
tokio = { version = "=1.54.1", features = ["rt", "time"] }
