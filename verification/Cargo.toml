[package]
name = "betfair_stream_proxy"
version = "0.1.0"
edition = "2021"
publish = false

[dependencies]
bytes = "1"
urlencoding = "2"
rustls-pki-types = "1"
axum = { version = "0.7", features = ["ws"] }
tokio = { version = "1", features = ["rt-multi-thread", "macros", "net", "time", "sync", "signal", "io-util"] }
tokio-util = { version = "0.7", features = ["codec"] }
tokio-rustls = { version = "0.26", default-features = false, features = ["ring", "tls12", "logging"] }
rustls = { version = "0.23", default-features = false, features = ["ring", "std", "tls12", "logging"] }
webpki-roots = "0.26"
reqwest = { version = "0.12", default-features = false, features = ["json", "rustls-tls"] }
serde = { version = "1", features = ["derive"] }
serde_json = "1"
clap = { version = "4", features = ["derive", "env"] }
futures-util = { version = "0.3", features = ["sink"] }
tower-http = { version = "0.5", features = ["fs", "trace"] }
thiserror = "1"
tracing = "0.1"
tracing-subscriber = { version = "0.3", features = ["env-filter"] }
dotenvy = "0.15"
