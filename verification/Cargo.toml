[package]
name = "simplefileshare"
version = "0.1.0"
edition = "2021"
publish = false

[dependencies]
axum = { version = "0.6", features = ["multipart"] }
chrono = "0.4"
clap = { version = "4", features = ["derive"] }
futures-util = "0.3"
rand = "0.8"
serde = { version = "1", features = ["derive"] }
sqlx = { version = "0.6", default-features = false, features = ["any", "sqlite", "runtime-tokio-rustls"] }
tokio = { version = "1", features = ["full"] }
tokio-util = { version = "0.7", features = ["io"] }
xxhash-rust = { version = "0.8", features = ["xxh3"] }

[dev-dependencies]
regex = "1"
