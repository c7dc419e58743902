[package]
name = "fridge"
version = "0.1.0"
edition = "2021"
publish = false

[dependencies]
anyhow = "1"
axum = "*"
envy = "*"
futures-util = { version = "0.3", features = ["sink"] }
mimalloc = "*"
rmp-serde = "1"
rubenvy = "*"
secrecy = { version = "*", features = ["serde"] }
sentry = { version = "*", default-features = false, features = ["tracing"] }
serde = { version = "1", features = ["derive"] }
serde_json = "1"
sqlx = { version = "*", default-features = false, features = ["postgres", "runtime-tokio", "uuid", "migrate", "derive"] }
thiserror = "*"
tokio = { version = "1", features = ["full"] }
tokio-util = { version = "*", features = ["rt"] }
tokio-websockets = { version = "*", features = ["server", "sha1_smol"] }
tower-http = { version = "*", features = ["cors"] }
tracing = "0.1"
tracing-subscriber = "*"
uuid = { version = "1", features = ["v7", "serde"] }
