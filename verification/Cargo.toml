[package]
name = "librespot"
version = "0.1.0"
edition = "2021"
publish = false

[dependencies]
base64 = "=0.22.1"
flate2 = "=1.1.10"
uuid = { version = "=1.29.0", features = ["v4"] }
url = "=2.5.8"
protobuf = "=3.7.2"
protobuf-json-mapping = "=3.7.2"
hyper = { version = "=1.12.0", default-features = false }
hyper-util = { version = "=0.1.21", features = ["client-legacy", "http1"] }
http = "=1.5.0"
tokio = { version = "=1.54.1", default-features = false, features = ["sync"] }
time = { version = "=0.3.55", features = ["parsing"] }
quick-xml = "=0.37.5"
serde = { version = "=1.0.229", features = ["derive"] }
serde_json = "=1.0.154"
thiserror = "=2.0.21"
sysinfo = "=0.35.2"
rand = { version = "=0.9.5", features = ["small_rng"] }
rand_distr = "=0.5.1"
symphonia = { version = "=0.5.5", default-features = false }
bytes = "=1.12.1"
