[package]
name = "gitops_reconciler"
version = "0.1.0"
edition = "2021"
publish = false

[dependencies]
regex = "*"
handlebars = "*"
git2 = "*"
kube = { version = "*", features = ["runtime", "derive", "client"] }
kube-runtime = "*"
k8s-openapi = { version = "*", features = ["latest"] }
tokio = { version = "*", features = ["macros", "rt-multi-thread", "time"] }
futures = "*"
serde = { version = "*", features = ["derive"] }
serde_json = "*"
schemars = "*"
tempfile = "*"
thiserror = "*"
log = "*"
