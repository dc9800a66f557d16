[package]
name = "artifact_proxy"
version = "0.1.0"
edition = "2021"
publish = false

[dependencies]
ring = "=0.17.14"
data-encoding = "=2.11.1"
http = "=1.5.0"
octocrab = "=0.44.1"
tokio = { version = "=1.53.2", features = ["macros", "rt-multi-thread"] }
vercel_runtime = "=2.4.1"
