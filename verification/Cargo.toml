[package]
name = "govail_mcp"
version = "0.1.0"
edition = "2021"
publish = false

[dependencies]
sha2 = "0.10"
hmac = "0.12"
chrono = { version = "0.4", default-features = false, features = ["clock", "std", "serde"] }
uuid = { version = "1", features = ["v4", "serde"] }
serde = { version = "1", features = ["derive"] }
serde_json = "1"
thiserror = "2"
anyhow = "1"
async-trait = "0.1"
async-stream = "0.3"
futures-core = "0.3"
tokio = { version = "1", features = ["macros", "rt-multi-thread", "fs", "net", "sync", "io-std"] }
axum = "0.8"
tower-http = { version = "0.6", features = ["cors", "trace"] }
tracing = "0.1"
tracing-subscriber = "0.3"
reqwest = { version = "0.12", default-features = false, features = ["json"] }
sqlx = { version = "0.8", default-features = false, features = ["postgres", "runtime-tokio", "uuid", "json"] }
rmcp = { version = "*", features = ["server", "transport-io"] }
