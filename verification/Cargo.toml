[package]
name = "ani_scheduler"
version = "0.1.0"
edition = "2021"
publish = false

[dependencies]
chrono = "=0.4.45"
cron = "=0.17.0"
tokio = { version = "=1.53.2", features = ["rt-multi-thread", "time", "sync", "macros", "signal"] }
config = "=0.15.27"
serde = { version = "1", features = ["derive"] }
serde_json = "1"
log = "0.4"
reqwest = { version = "=0.13.5", default-features = false, features = ["json"] }

[dev-dependencies]
