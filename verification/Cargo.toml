[package]
name = "onion_forum"
version = "0.1.0"
edition = "2021"
publish = false

[dependencies]
ammonia = "4"
argon2 = { version = "0.5", features = ["std"] }
axum = "0.7"
axum-extra = { version = "0.9", features = ["cookie"] }
captcha = "*"
minijinja = { version = "2", features = ["loader"] }
pulldown-cmark = "0.12"
rusqlite = { version = "0.31", features = ["bundled"] }
serde = { version = "1", features = ["derive"] }
time = { version = "0.3", features = ["formatting", "parsing", "macros"] }
tokio = { version = "1", features = ["full"] }
tower-http = { version = "0.5", features = ["fs"] }
tracing-subscriber = "0.3"
uuid = { version = "1", features = ["v4"] }
