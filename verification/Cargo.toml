[package]
name = "brupop"
version = "0.2.0"
edition = "2021"
publish = false

[dependencies]
actix-web = "4"
async-trait = "0.1"
dotenv = "0.15"
env_logger = "*"
k8s-openapi = { version = "*", features = ["latest"] }
kube = { version = "*", default-features = false, features = ["client", "derive", "rustls-tls"] }
log = "0.4"
maplit = "1"
schemars = "*"
serde = { version = "1", features = ["derive"] }
serde_json = "1"
snafu = "*"
tokio = { version = "1", features = ["macros", "rt-multi-thread", "time"] }
