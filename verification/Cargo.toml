[package]
name = "tokend"
version = "0.1.0"
edition = "2021"
publish = false

[dependencies]
async-trait = "0.1"
base64 = "0.21"
config = { version = "0.13", default-features = false, features = ["yaml"] }
regex = "1"
secrecy = { version = "0.8", features = ["serde"] }
serde = { version = "1", features = ["derive"] }
sqlx = { version = "0.7", default-features = false, features = ["postgres", "runtime-tokio"] }
thiserror = "1"
tracing-log = "0.1"
uuid = { version = "1", features = ["v4"] }
