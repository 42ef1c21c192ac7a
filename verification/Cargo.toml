[package]
name = "kubesql"
version = "0.1.0"
edition = "2021"
publish = false

[dependencies]
sqlparser = "*"
thiserror = "*"
kube = { version = "*", default-features = false, features = ["client", "config"] }
k8s-openapi = { version = "*", features = ["latest"] }
prettytable-rs = "*"
