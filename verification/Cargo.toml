[package]
name = "anticounterfeit"
version = "0.1.0"
edition = "2021"
publish = false

[dependencies]
hmac = "0.12"
sha2 = "0.10"
cmac = "0.7"
aes = "0.8"
base64 = "0.22"
hex = "0.4"
uuid = { version = "1", features = ["v4"] }
chrono = "0.4"
axum = "0.8"
tokio = { version = "1", features = ["full"] }
serde = { version = "1", features = ["derive"] }
serde_json = "1"
sea-orm = { version = "1", default-features = false, features = ["macros", "with-chrono", "with-uuid", "with-json"] }
tower-http = { version = "0.6", features = ["trace", "cors"] }
tracing = "0.1"
tracing-subscriber = { version = "0.3", features = ["env-filter"] }
anyhow = "1"
dotenvy = "0.15"
thiserror = "2"
async-trait = "0.1"
