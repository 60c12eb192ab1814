[package]
name = "shaide"
version = "0.1.0"
edition = "2021"
publish = false

[dependencies]
base64 = "=0.22.1"
imagesize = "=0.15.0"
url = "=2.5.8"
fnv = "=1.0.7"
jsonwebtoken = "=9.3.1"
argon2 = "=0.5.3"
rand_core = { version = "=0.6.4", features = ["getrandom"] }
http = "=1.5.0"
dashmap = "=6.2.1"
chrono = "=0.4.45"
serde = { version = "=1.0.229", features = ["derive"] }
serde_json = { version = "=1.0.154", features = ["preserve_order"] }
tokio = { version = "=1.54.1", features = ["full"] }
axum = "=0.8.9"
reqwest = { version = "=0.12.28", default-features = false, features = ["json", "stream", "rustls-tls"] }
reqwest-eventsource = "=0.6.0"
futures = "=0.3.34"
async-stream = "=0.3.6"
tracing = "=0.1.44"
tracing-subscriber = { version = "=0.3.23", features = ["env-filter"] }
dotenvy = "=0.15.7"
fastrand = "=2.5.0"
uuid = { version = "=1.29.0", features = ["v4"] }
sysinfo = "=0.40.1"
thiserror = "=2.0.21"
