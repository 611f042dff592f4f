[package]
name = "rusty_tunes"
version = "0.1.0"
edition = "2021"
publish = false

[dependencies]
dotenv = "0.15"
poise = { version = "0.6", default-features = false, features = ["cache"] }
rand = "=0.9.5"
regex = "=1.13.1"
reqwest = { version = "0.12", default-features = false, features = ["rustls-tls"] }
serde = { version = "1", features = ["derive"] }
serde_json = "1"
serenity = { version = "=0.12.5", default-features = false, features = ["builder", "cache", "client", "collector", "framework", "gateway", "http", "model", "rustls_backend", "utils", "voice"] }
songbird = { version = "=0.5.0", default-features = false, features = ["driver", "gateway", "rustls", "serenity", "tungstenite"] }
sqlx = { version = "0.8", default-features = false, features = ["runtime-tokio", "sqlite"] }
thiserror = "1"
time = "0.3"
tokio = { version = "1", features = ["fs", "macros", "process", "rt-multi-thread", "signal", "sync", "time"] }
tracing = "0.1"
