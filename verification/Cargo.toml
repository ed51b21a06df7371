[package]
name = "pipeline"
version = "0.1.0"
edition = "2021"
publish = false

[dependencies]
tokio = { version = "=1.54.1", features = ["sync", "rt", "rt-multi-thread", "macros", "time"] }
futures-util = "=0.3.34"
actix-web = "=4.18.1"
actix-session = { version = "=0.11.0", features = ["cookie-session"] }
actix-files = "=0.6.10"
env_logger = "=0.11.11"
log = "=0.4.34"
serde = { version = "=1.0.229", features = ["derive"] }
serde_json = "=1.0.154"
derive_more = { version = "=2.1.1", features = ["display", "from"] }
deadpool-postgres = { version = "*", features = ["serde"] }
tokio-postgres = "0.7"
tokio-pg-mapper = "0.2"
tokio-pg-mapper-derive = "0.2"
dotenv = "0.15"
config = "*"
