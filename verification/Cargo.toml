[package]
name = "myblog_api"
version = "3.0.0"
edition = "2021"
publish = false

[dependencies]
alcoholic_jwt = "=10039.0.0"
base64 = "=0.23.1"
serde_json = "=1.0.154"
serde = { version = "=1.0.229", features = ["derive"] }
tonic = { version = "=0.8.3", features = ["tls"] }
tokio = { version = "=1.54.1", features = ["full"] }
tokio-stream = "=0.1.19"
clap = "=3.2.25"
reqwest = { version = "=0.11.27", features = ["json"] }
mongodb = "=2.8.2"
prost-types = "=0.11.9"
warp = "=0.3.7"

[dev-dependencies]
openssl = "=0.10.81"
