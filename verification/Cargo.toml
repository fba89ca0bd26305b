[package]
name = "blockdns"
version = "0.1.0"
edition = "2021"
publish = false

[dependencies]
async-trait = "*"
axum = "0.6"
chrono = "0.4"
log = "*"
serde = { version = "1", features = ["derive"] }
thiserror = "*"
tokio = { version = "1", features = ["macros", "rt-multi-thread", "net", "sync"] }
tower-http = { version = "*", features = ["trace"] }
tracing-subscriber = { version = "*", features = ["env-filter"] }
trust-dns-resolver = "0.22"
trust-dns-server = "0.22"
