[package]
name = "akd_watch"
version = "0.1.0"
edition = "2021"
publish = false

[dependencies]
akd = { version = "=0.13.0", features = ["public_auditing", "whatsapp_v1", "experimental"] }
axum = "0.7"
chrono = { version = "=0.4.45", features = ["serde"] }
config = { version = "*", default-features = false, features = ["json", "toml"] }
ed25519-dalek = { version = "=2.2.0", features = ["serde"] }
hex = "=0.4.3"
quick-xml = "=0.38.4"
rand = "=0.9.5"
reqwest = { version = "=0.12.28", default-features = false, features = ["blocking", "rustls-tls"] }
serde = { version = "=1.0.229", features = ["derive"] }
serde_json = "=1.0.154"
thiserror = "=2.0.21"
tokio = { version = "=1.54.1", features = ["rt", "rt-multi-thread", "macros", "sync", "time", "signal"] }
tracing = "=0.1.44"
tracing-subscriber = "=0.3.23"
uuid = { version = "=1.29.0", features = ["v4", "serde"] }

[dev-dependencies]
bincode = "=2.0.1"
prost = "=0.13.5"
