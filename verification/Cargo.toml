[package]
name = "api_tester"
version = "0.1.0"
edition = "2021"
publish = false

[dependencies]
actix-cors = "0.7"
actix-web = { version = "4", default-features = false, features = ["macros"] }
chrono = { version = "0.4", default-features = false, features = ["clock", "std"] }
env_logger = { version = "0.11", default-features = false }
futures-util = { version = "0.3", features = ["sink"] }
lazy_static = "1"
log = "0.4"
moka = { version = "0.12", features = ["future", "sync"] }
prometheus = { version = "0.13", default-features = false }
reqwest = { version = "0.12", default-features = false, features = ["json"] }
serde = { version = "1", features = ["derive"] }
serde_json = "1"
tokio = { version = "1", features = ["macros", "rt-multi-thread", "time"] }
tokio-tungstenite = "0.21"
url = "2"
