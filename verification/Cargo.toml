[package]
name = "gakusai2024_backend"
version = "0.1.0"
edition = "2021"
publish = false

[dependencies]
uuid = { version = "*", features = ["v4"] }
time = "*"
sea-orm = { version = "*", features = ["sqlx-postgres", "runtime-tokio-rustls", "with-time", "with-uuid", "macros"] }
tokio = { version = "*", features = ["rt", "rt-multi-thread", "sync", "macros"] }
tonic = "*"
prost-types = "*"
async-trait = "*"
thiserror = "*"
log = "*"
env_logger = "*"
dotenv = "*"
