[package]
name = "ishinex_core"
version = "0.1.0"
edition = "2021"
publish = false

[dependencies]
serde_json = "=1.0.151"
chrono = "=0.4.45"
regex = "=1.13.1"
uuid = { version = "=1.27.0", features = ["v4"] }
tokio = { version = "=1.53.2", features = ["process", "io-util", "rt-multi-thread", "macros", "sync", "time"] }
dirs = "=7.0.0"
walkdir = "=2.5.0"
rusqlite = { version = "=0.40.2", features = ["bundled"] }
