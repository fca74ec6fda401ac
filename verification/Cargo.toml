[package]
name = "invmst"
version = "0.1.0"
edition = "2021"
publish = false

[dependencies]
chrono = "=0.4.45"
clap = { version = "=4.6.7", features = ["derive"] }
colored = "=3.1.1"
confy = "=2.0.0"
directories = "=6.0.0"
env_logger = "=0.11.11"
futures = "=0.3.34"
indicatif = "=0.18.6"
log = "=0.4.34"
polars = { version = "*", default-features = false, features = ["lazy", "dtype-date", "temporal"] }
regex = "=1.13.1"
reqwest = { version = "=0.12.28", features = ["json", "stream"] }
serde = { version = "=1.0.229", features = ["derive"] }
serde_json = "=1.0.154"
strum = { version = "=0.28.0", features = ["derive"] }
tabled = "=0.22.0"
thiserror = "=2.0.21"
tokio = { version = "=1.54.1", features = ["macros", "rt-multi-thread", "sync", "time"] }
