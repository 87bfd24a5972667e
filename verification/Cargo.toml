[package]
name = "pod_labeler"
version = "0.1.0"
edition = "2021"
publish = false

[dependencies]
futures = "*"
k8s-openapi = { version = "=0.27.1", features = ["latest"] }
kube = "=3.1.0"
kube-runtime = "=3.1.0"
tokio = { version = "*", features = ["macros", "rt-multi-thread"] }
tracing = "*"
tracing-subscriber = "*"
