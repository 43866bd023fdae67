[package]
name = "shizuku"
version = "0.1.0"
edition = "2021"
publish = false

[dependencies]
rand = "=0.9.5"
num_cpus = "=1.17.0"
anyhow = "=1.0.104"
thiserror = "=2.0.21"
serde = { version = "=1.0.229", features = ["derive"] }
serde_json = "=1.0.154"
bincode = "=2.0.1"
async-nats = "=0.51.0"
tokio = { version = "=1.54.1", features = ["rt-multi-thread", "macros", "time"] }
futures = "=0.3.34"
bytes = "=1.12.1"
kanau = "=0.6.0"
convert_case = "=0.12.0"
syn = { version = "=2.0.119", features = ["full"] }
quote = "=1.0.47"
