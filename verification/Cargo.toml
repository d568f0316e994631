[package]
name = "squirrel"
version = "0.1.0"
edition = "2021"
publish = false

[dependencies]
anyhow = "1"
arrow = "=60.0.0"
async-nats = "=0.50.0"
bs58 = "=0.5.1"
chrono = { version = "=0.4.45", features = ["serde"] }
clap = { version = "4", features = ["derive"] }
clickhouse = "=0.15.3"
futures = "0.3"
indicatif = "0.17"
parquet = "=60.0.0"
prost = "=0.14.4"
prost-types = "=0.14.4"
rmp-serde = "=1.3.1"
serde = { version = "1", features = ["derive"] }
serde_arrow = { version = "=0.15.1", features = ["arrow-60"] }
tokio = { version = "1", features = ["full"] }
tokio-stream = "0.1"
toml = "1"
uuid = { version = "=1.29.0", features = ["v4"] }
zstd = "=0.13.3"
