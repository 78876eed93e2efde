[package]
name = "starboard"
version = "0.1.0"
edition = "2021"
publish = false

[dependencies]
anyhow = "=1.0.104"
cached = { version = "=0.55.1", default-features = false }
dashmap = "=5.5.3"
dotenv = "=0.15.0"
floodgate = "=0.5.1"
moka = { version = "=0.12.16", features = ["sync"] }
sqlx = { version = "0.6", default-features = false, features = ["postgres", "runtime-tokio-rustls"] }
tokio = { version = "=1.54.1", features = ["rt", "sync", "time"] }
twilight-cache-inmemory = "0.14"
twilight-gateway = "0.14"
twilight-http = "=0.14.4"
twilight-model = "=0.14.5"
