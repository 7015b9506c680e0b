[package]
name = "ram"
version = "0.1.0"
edition = "2021"
publish = false

[dependencies]
base64 = "=0.22.1"
rand = "=0.9.5"
serde = { version = "=1.0.229", features = ["derive"] }
serde_json = "=1.0.154"
parking_lot = "=0.12.5"
uuid = { version = "=1.29.0", features = ["v4"] }
hostname = "=0.4.2"
axum = { version = "=0.7.9", features = ["ws"] }
tokio = { version = "=1.54.1", features = ["sync", "rt", "macros", "net", "time"] }
tower-http = { version = "=0.5.2", features = ["cors", "trace"] }
reqwest = { version = "=0.12.28", default-features = false, features = ["json"] }
futures-util = "=0.3.34"
urlencoding = "=2.1.3"
rubato = "0.15"
