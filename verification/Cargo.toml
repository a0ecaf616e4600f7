[package]
name = "build_intercept"
version = "0.1.0"
edition = "2021"
publish = false

[dependencies]
rls-data = "=0.19.1"

[dev-dependencies]
serde_json = "1"
