[package]
name = "drill"
version = "0.1.0"
edition = "2021"
publish = false

[dependencies]
async-trait = "=0.1.92"
colored = "=2.2.0"
futures = "=0.3.34"
log = "=0.4.34"
num_cpus = "=1.17.0"
reqwest = { version = "=0.11.27", default-features = false }
serde_json = "=1.0.154"
tokio = { version = "=1.54.1", features = ["rt-multi-thread", "time", "test-util"] }
yaml-rust = "=0.4.5"
