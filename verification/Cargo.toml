[package]
name = "tower"
version = "0.1.0"
edition = "2021"
publish = false

[dependencies]
futures = "=0.1.31"
never = "=0.1.0"
tower-layer = "=0.1.0"
tower-service = "=0.2.0"
tower-util = "=0.1.0"

[dev-dependencies]
tokio = "=0.1.22"
tower-limit = "=0.1.3"
tower-retry = "=0.1.0"
void = "=1.0.2"
