[package]
name = "kubefront-core"
version = "0.1.0"
edition = "2021"
publish = false

[dependencies]
chrono = { version = "0.4", default-features = false, features = ["std", "clock"] }
serde = { version = "1", features = ["derive"] }
serde_json = "1"
toml = "*"
anyhow = "1"
thiserror = "*"
tokio = { version = "1", features = ["full"] }
axum = "*"
tower-http = { version = "*", features = ["trace"] }
futures-util = { version = "0.3", features = ["io"] }
async-stream = "0.3"
tracing = "0.1"
tracing-subscriber = { version = "0.3", features = ["env-filter"] }
clap = { version = "4", features = ["derive"] }
kube = "*"
k8s-openapi = { version = "*", features = ["latest"] }
