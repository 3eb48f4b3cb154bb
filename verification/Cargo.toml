[package]
name = "dapr"
version = "0.1.0"
edition = "2021"
publish = false

[dependencies]
tonic = "*"
prost = "*"
prost-types = "*"
chrono = "*"
uuid = { version = "*", features = ["v4"] }
gethostname = "*"
opentelemetry = "*"
http = "*"
axum = "*"
tokio = { version = "*", features = ["full"] }
tokio-util = { version = "*", features = ["io"] }
tower = { version = "*", features = ["util"] }
futures = "*"
log = "*"
serde = { version = "*", features = ["derive"] }
serde_json = "*"
async-trait = "*"
anyhow = "*"
once_cell = "*"
dapr-durabletask = "*"
