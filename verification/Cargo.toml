[package]
name = "fios_stats"
version = "0.1.0"
edition = "2021"
publish = false

[dependencies]
serde_json = "=1.0.151"
sha2 = "=0.10.9"
reqwest = { version = "=0.12.28", default-features = false, features = ["blocking", "rustls-tls", "cookies"] }
clap = "=4.6.7"
