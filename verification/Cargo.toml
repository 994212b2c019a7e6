[package]
name = "orm"
version = "0.1.0"
edition = "2021"
publish = false

[dependencies]
chrono = "=0.4.45"
datadog-logs = { version = "=0.2.1", features = ["nonblocking"] }
env_logger = "=0.11.11"
flate2 = "=1.1.10"
http = "=0.2.12"
hyper = { version = "=0.14.32", features = ["client", "http1", "http2", "tcp"] }
hyper-tls = "=0.5.0"
log = "=0.4.34"
regex = "=1.13.1"
semver = "=1.0.28"
serde = { version = "=1.0.229", features = ["derive"] }
serde_yaml = "=0.9.34"
tar = "=0.4.46"
tempfile = "=3.27.0"
tokio = { version = "=1.54.1", features = ["macros", "rt-multi-thread"] }
