[package]
name = "link_preview"
version = "0.1.0"
edition = "2021"
publish = false

[dependencies]
tl = "0.7"
url = { version = "2", features = ["serde"] }
actix-web = "4"
actix-cors = "0.6"
clap = { version = "4", features = ["derive"] }
reqwest = { version = "0.11", default-features = false, features = ["rustls-tls"] }
reqwest-middleware = "0.2"
reqwest-tracing = "0.4"
serde = { version = "1", features = ["derive"] }
tracing = "0.1"
tracing-actix-web = "0.7"
tracing-subscriber = { version = "0.3", features = ["env-filter"] }
