[package]
name = "skylar"
version = "0.1.0"
edition = "2021"
publish = false

[dependencies]
anyhow = "=1.0.104"
chrono = "=0.4.45"
clap = { version = "=4.6.7", features = ["derive"] }
dotenv = "=0.15.0"
futures = "=0.3.34"
rand = "=0.8.8"
rand_distr = "=0.4.3"
ratatui = "=0.29.0"
regex = "=1.13.1"
reqwest = { version = "=0.12.28", default-features = false }
scylla = { version = "=0.14.0", features = ["chrono-04"] }
sysinfo = "=0.32.1"
tokio = { version = "=1.54.1", features = ["full"] }
tokio-retry = "=0.3.2"
tokio-util = "=0.7.20"
tracing = "=0.1.44"
tracing-subscriber = { version = "=0.3.23", features = ["env-filter"] }
uuid = { version = "=1.29.0", features = ["v4"] }
