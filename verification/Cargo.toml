[package]
name = "evalcraft"
version = "0.1.0"
edition = "2021"
publish = false

[dependencies]
regex = "=1.13.1"
sqlparser = "=0.49.0"
strsim = "=0.11.1"
jsonschema = { version = "=0.58.6", default-features = false }
serde_json = "=1.0.151"
anyhow = "=1.0.104"
async-trait = "=0.1.92"
chrono = "=0.4.45"
clap = { version = "=4.6.7", features = ["derive"] }
futures = "=0.3.34"
notify = "=8.2.0"
rusqlite = { version = "=0.40.2", features = ["bundled"] }
serde = { version = "=1.0.229", features = ["derive"] }
tabled = "=0.22.0"
tokio = { version = "=1.53.2", features = ["rt-multi-thread", "macros", "fs", "time", "sync"] }
tracing-subscriber = "=0.3.23"
