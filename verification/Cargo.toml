[package]
name = "dummy_client"
version = "0.1.0"
edition = "2021"
publish = false

[dependencies]
anyhow = "=1.0.104"
async-trait = "=0.1.92"
erased-serde = "=0.4.10"
fedimint-api-client = { version = "=0.5.2", default-features = false }
fedimint-client = { version = "=0.5.2", default-features = false }
fedimint-core = "=0.5.2"
fedimint-dummy-common = "=0.5.2"
futures = "=0.3.34"
rand = "=0.8.8"
