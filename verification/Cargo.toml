[package]
name = "omniforge"
version = "0.1.0"
edition = "2021"
publish = false

[dependencies]
directories = "=6.0.0"
serde = { version = "=1.0.229", features = ["derive"] }
serde_json = "=1.0.154"
thiserror = "=2.0.21"
tokio = { version = "=1.54.1", features = ["rt", "rt-multi-thread", "sync", "process", "io-util", "fs", "macros", "time"] }
tracing = "=0.1.44"
tracing-subscriber = { version = "=0.3.23", features = ["env-filter", "fmt"] }
async-channel = "=2.5.0"
relm4 = { version = "=0.9.1", features = ["libadwaita"] }
toml = "0.8"
