[package]
name = "lambda_web_adapter"
version = "0.1.0"
edition = "2021"
publish = false

[dependencies]
http = "=1.5.0"
http-body = "=1.1.0"
hyper = "=1.12.0"
hyper-util = "=0.1.21"
lambda_http = { version = "=1.3.1", features = ["pass_through"] }
serde = "=1.0.229"
serde_json = "=1.0.151"
tokio = { version = "=1.53.2", features = ["full"] }
tokio-retry = "=0.3.2"
tower = "=0.5.3"
tower-http = { version = "=0.7.1", features = ["compression-gzip"] }
tracing = "=0.1.44"
tracing-subscriber = { version = "=0.3.23", features = ["env-filter"] }
url = "=2.5.8"
