[package]
name = "sentinella_agent"
version = "0.1.0"
edition = "2021"
publish = false

[dependencies]
anyhow = "1"
futures = "0.3"
http-body-util = "0.1"
hyper = { version = "1", features = ["http1", "server"] }
hyper-util = { version = "0.1", features = ["tokio"] }
k8s-openapi = { version = "=0.27.1", features = ["latest"] }
kube = { version = "=3.1.0", features = ["runtime"] }
kube-leader-election = "=0.43.0"
native-tls = "0.2"
once_cell = "1"
postgres-native-tls = "0.5"
prometheus = { version = "0.13", default-features = false }
prost = "0.13"
prost-types = "0.13"
reqwest = { version = "0.12", default-features = false, features = ["gzip", "json", "rustls-tls"] }
serde = { version = "1", features = ["derive"] }
serde_json = "=1.0.154"
serde_yaml = "=0.9.34"
time = { version = "=0.3.55", features = ["formatting", "parsing"] }
tokio = { version = "1", features = ["full"] }
tokio-postgres = "0.7"
tonic = "0.12"
tracing = "0.1"
tracing-subscriber = { version = "0.3", features = ["env-filter", "json"] }
