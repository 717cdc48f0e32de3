[package]
name = "kovel"
version = "0.1.0"
edition = "2021"
publish = false

[dependencies]
serde_json = "*"
async-channel = "*"
futures = "*"
glib = "*"
gtk4 = "*"
k8s-openapi = { version = "*", features = ["latest"] }
kube = "*"
shared_child = "*"
tokio = { version = "*", features = ["macros", "rt-multi-thread"] }
