[package]
name = "spire"
version = "0.1.0"
edition = "2021"
publish = false

[dependencies]
http = "1"
thirtyfour = "*"
deadpool = { version = "*", features = ["managed", "rt_tokio_1"] }
tokio = { version = "1", features = ["rt", "rt-multi-thread", "time", "sync", "macros"] }
tokio-util = "*"
futures = "0.3"
tower = { version = "*", features = ["util"] }
reqwest = { version = "*", default-features = false, features = ["rustls-tls"] }
serde_json = "1"
async-trait = "0.1"
bytes = "1"
tracing = "0.1"
