[package]
name = "daas_bot"
version = "0.1.0"
edition = "2021"
publish = false

[dependencies]
actix-web = { version = "=4.18.1", default-features = false, features = ["macros"] }
anyhow = "=1.0.104"
async-channel = "=2.5.0"
clap = { version = "=4.6.7", features = ["derive", "env"] }
derive_more = { version = "=2.1.1", features = ["debug", "deref", "from", "into"] }
either = "=1.19.0"
hex = "=0.4.3"
jiff = "=0.2.39"
log = "=0.4.35"
rusqlite = { version = "=0.41.1", features = ["bundled"] }
serde_json = "=1.0.154"
serenity = { version = "=0.12.5", default-features = false, features = ["builder", "model", "http", "chrono", "utils", "interactions_endpoint", "rustls_backend"] }
simplelog = "=0.12.2"
tempfile = "=3.27.0"
thiserror = "=2.0.21"
tokio = { version = "=1.54.1", features = ["rt", "rt-multi-thread", "sync", "macros"] }

[dev-dependencies]
ed25519-dalek = "=2.2.0"
