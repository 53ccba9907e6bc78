[package]
name = "gw2shinies_backend"
version = "0.1.0"
edition = "2021"
publish = false

[dependencies]
chrono = "*"
serde = { version = "*", features = ["derive"] }
serde_json = "*"
reqwest = { version = "*", features = ["json"] }
tokio = { version = "*", features = ["full"] }
tokio-util = "*"
clap = { version = "*", features = ["derive", "env"] }
surrealdb = "*"
axum = "*"
tower-http = { version = "*", features = ["cors"] }
tracing-subscriber = "*"
