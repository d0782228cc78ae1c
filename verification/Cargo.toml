[package]
name = "kubit"
version = "0.1.0"
edition = "2021"
publish = false

[dependencies]
anyhow = "1"
base64 = "=0.22.1"
clap = { version = "4", features = ["derive", "env"] }
docker_credential = "1"
futures = "0.3"
home = "0.5"
itertools = "0.13"
k8s-openapi = { version = "=0.20.0", features = ["v1_28", "schemars"] }
kube = { version = "=0.87.2", default-features = false, features = ["client", "derive", "runtime", "rustls-tls"] }
kubert = { version = "=0.22.0", default-features = false, features = ["clap", "runtime", "prometheus-client", "rustls-tls"] }
oci-distribution = { version = "=0.11.0", default-features = false, features = ["rustls-tls"] }
prometheus-client = "0.22"
schemars = "0.8"
serde = { version = "1", features = ["derive"] }
serde_json = "1"
serde_yaml = "0.9"
tempfile = "3"
thiserror = "1"
tokio = { version = "1", features = ["macros", "rt-multi-thread", "time"] }
tracing = "0.1"
tynm = "0.1"
yash-quote = "=1.1.1"
