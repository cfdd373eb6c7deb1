[package]
name = "codex_gateway"
version = "0.1.0"
edition = "2021"
publish = false

[dependencies]
axum = "0.8"
base64 = "0.22"
chrono = "0.4"
eventsource-stream = "0.2"
futures = "0.3"
hex = "0.4"
htmlescape = "0.3"
http = "1"
rand = "0.8"
serde = { version = "1", features = ["derive"] }
serde_json = "1"
sha2 = "0.10"
tower = "0.5"
tower-http = { version = "0.6", features = ["compression-gzip"] }
tracing = "0.1"
url = "2"
uuid = { version = "1", features = ["v4"] }
