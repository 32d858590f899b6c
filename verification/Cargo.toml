[package]
name = "ezpr"
version = "0.1.0"
edition = "2021"
publish = false

[dependencies]
sqlite = "*"
oauth2 = "5"
url = "2"
reqwest = { version = "0.12", default-features = false, features = ["json", "rustls-tls"] }
tokio = { version = "1", features = ["macros", "rt-multi-thread", "net", "io-util"] }
serde = { version = "1", features = ["derive"] }
serde_json = "1"
anyhow = "1"
open = "5"
graphql_client = { version = "*", default-features = false }
lazy_static = "1"
