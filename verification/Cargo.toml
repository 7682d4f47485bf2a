[package]
name = "pulsar_connector"
version = "0.1.0"
edition = "2021"
publish = false

[dependencies]
anyhow = "1"
async-trait = "0.1"
futures = "0.3"
pulsar = { version = "=6.2.0", default-features = false, features = ["tokio-runtime", "auth-oauth2", "protobuf-src"] }
serde = { version = "1", features = ["derive"] }
serde_json = "1"
tokio = { version = "1", features = ["macros", "rt", "sync", "time"] }
